//! Capturing the state of the backend for a snapshot.

use vstd::prelude::*;

use crate::device::{DeviceView, VhostUserFsImpl};
use crate::error::{Fault, VhostUserError, VhostUserFsError};
use crate::request::{
    Call, HostCall, MemfdName, Request, TransferDirection, TransferPhase, VhostCall,
};

verus! {

/// The capture of the state of the backend.
#[derive(PartialEq, Eq)]
pub struct Capture {
    pub device: VhostUserFsImpl,
    /// All calls of the capture.
    pub plan: Vec<Request>,
    /// How many of them have been made or passed over.
    pub done: usize,
    /// Where in the plan the vrings are enabled again.
    pub resume_at: usize,
    /// What the backend has written.
    pub blob: Option<Vec<u8>>,
    /// Why there is no blob.
    pub capture_error: Option<VhostUserFsError>,
    /// Why the vrings could not be enabled again.
    pub resume_error: Option<VhostUserFsError>,
}

/// The capture as a mathematical value.
pub struct CaptureView {
    pub device: DeviceView,
    pub plan: Seq<Call>,
    pub done: int,
    pub resume_at: int,
    pub blob: Option<Seq<u8>>,
    pub capture_error: Option<VhostUserFsError>,
    pub resume_error: Option<VhostUserFsError>,
}

impl View for Capture {
    type V = CaptureView;

    open spec fn view(&self) -> CaptureView {
        CaptureView {
            device: self.device@,
            plan: crate::request::calls(self.plan@),
            done: self.done as int,
            resume_at: self.resume_at as int,
            blob: crate::device::blob_view(self.blob),
            capture_error: self.capture_error,
            resume_error: self.resume_error,
        }
    }
}

/// The bytes of a reply: those that were read, and none otherwise.
pub open spec fn bytes_view(reply: Result<Vec<u8>, Fault>) -> Result<Seq<u8>, Fault> {
    match reply {
        Ok(bytes) => Ok(bytes@),
        Err(fault) => Err(fault),
    }
}

impl DeviceView {
    /// All calls that capture the state of the backend: it is quiesced, saves
    /// its state and is resumed.
    pub open spec fn capture_plan(self) -> Seq<Call> {
        crate::plan::vrings_plan(self.queues.len(), false) + crate::plan::save_plan()
            + crate::plan::vrings_plan(self.queues.len(), true)
    }

    /// The device without a blob.
    pub open spec fn without_blob(self) -> DeviceView {
        DeviceView { backend_state: None, ..self }
    }
}

impl CaptureView {
    /// The start. An inactive device has no backend state and is not asked
    /// for one, and a backend that cannot transfer its state is not touched.
    pub open spec fn start(device: DeviceView) -> CaptureView {
        if !device.is_activated() {
            CaptureView {
                device: device.without_blob(),
                plan: Seq::empty(),
                done: 0,
                resume_at: 0,
                blob: None,
                capture_error: None,
                resume_error: None,
            }
        } else if !device.snapshot_capable() {
            CaptureView {
                device: device.without_blob(),
                plan: Seq::empty(),
                done: 0,
                resume_at: 0,
                blob: None,
                capture_error: Some(VhostUserFsError::DeviceStateNotNegotiated),
                resume_error: None,
            }
        } else {
            CaptureView {
                device: device.without_blob(),
                plan: device.capture_plan(),
                done: 0,
                resume_at: device.queues.len() as int + 6,
                blob: None,
                capture_error: None,
                resume_error: None,
            }
        }
    }

    pub open spec fn wf(self) -> bool {
        &&& 0 <= self.done <= self.plan.len()
        &&& 0 <= self.resume_at <= self.plan.len()
        &&& self.device.backend_state is None
    }

    /// The call that is next, if any.
    pub open spec fn pending(self) -> Option<Call> {
        if self.done < self.plan.len() {
            Some(self.plan[self.done])
        } else {
            None
        }
    }

    /// At most so many calls are still to be made.
    pub open spec fn remaining(self) -> nat {
        (self.plan.len() - self.done) as nat
    }

    /// What the answer to the pending call makes of it. A fault before the
    /// vrings are enabled again leads straight there, so that the device is
    /// not left dead; a fault there ends the capture.
    pub open spec fn step(self, reply: Result<Seq<u8>, Fault>) -> CaptureView {
        let call = self.plan[self.done];
        match reply {
            Err(fault) => if self.done < self.resume_at {
                CaptureView {
                    capture_error: Some(crate::plan::device_error(call, fault)),
                    done: self.resume_at,
                    ..self
                }
            } else {
                CaptureView {
                    resume_error: Some(crate::plan::device_error(call, fault)),
                    done: self.plan.len() as int,
                    ..self
                }
            },
            Ok(bytes) => CaptureView {
                blob: if call == Call::Host(HostCall::ReadMemfd) {
                    Some(bytes)
                } else {
                    self.blob
                },
                done: self.done + 1,
                ..self
            },
        }
    }

    /// The device and the outcome. What went wrong with the capture comes
    /// before what went wrong with resuming; a blob is kept in either case.
    pub open spec fn outcome(self) -> (DeviceView, Result<(), VhostUserFsError>) {
        match self.capture_error {
            Some(error) => (self.device, Err(error)),
            None => (
                DeviceView { backend_state: self.blob, ..self.device },
                match self.resume_error {
                    Some(error) => Err(error),
                    None => Ok(()),
                },
            ),
        }
    }

    /// What becomes of the capture when its calls are answered in turn.
    pub open spec fn run(self, replies: Seq<Result<Seq<u8>, Fault>>) -> CaptureView
        decreases replies.len(),
    {
        if replies.len() == 0 || self.pending() is None {
            self
        } else {
            self.step(replies[0]).run(replies.drop_first())
        }
    }
}

impl VhostUserFsImpl {
    /// Starts to quiesce the backend, capture its device-state blob and
    /// re-enable the vrings. Must be called with the VM paused, before `save`
    /// embeds the captured blob in the device state. The backend keeps
    /// serving the device afterwards, so the source VM can be resumed.
    pub fn capture_backend_state(self) -> (capture: Capture)
        ensures
            capture@ == CaptureView::start(self@),
            capture@.wf(),
    {
        let ghost before = self@;
        let mut device = self;
        device.backend_state = None;
        let mut plan: Vec<Request> = Vec::new();
        assert(crate::request::calls(plan@) =~= Seq::empty());
        if !device.is_activated() {
            // The device was never activated, so the backend has no state
            // bound to a running VM. The snapshot carries an empty blob and
            // the restore side skips the LOAD transfer.
            return Capture {
                device,
                plan,
                done: 0,
                resume_at: 0,
                blob: None,
                capture_error: None,
                resume_error: None,
            };
        }
        if !device.snapshot_capable() {
            return Capture {
                device,
                plan,
                done: 0,
                resume_at: 0,
                blob: None,
                capture_error: Some(VhostUserFsError::DeviceStateNotNegotiated),
                resume_error: None,
            };
        }
        // Stop the backend from picking up new requests. In-flight requests
        // drain on the backend side: its state transfer is serialized
        // against request processing, which stops once the vrings are
        // disabled.
        let mut disable = device.set_vrings_enabled(false);
        let mut save = VhostUserFsImpl::save_backend_state();
        // Re-enable the vrings even if the transfer failed, so the source
        // VM is not left with a dead fs device.
        let mut enable = device.set_vrings_enabled(true);
        let ghost parts = crate::request::calls(disable@) + crate::request::calls(save@)
            + crate::request::calls(enable@);
        let ghost disable_part = disable@;
        let ghost save_part = save@;
        plan.append(&mut disable);
        plan.append(&mut save);
        let resume_at: usize = plan.len();
        assert(resume_at == crate::request::calls(disable_part).len() + crate::request::calls(
            save_part,
        ).len());
        plan.append(&mut enable);
        assert(crate::request::calls(plan@) =~= parts);
        Capture {
            device,
            plan,
            done: 0,
            resume_at,
            blob: None,
            capture_error: None,
            resume_error: None,
        }
    }
}

impl Capture {
    /// The call that is next, if any.
    pub fn pending(&self) -> (request: Option<&Request>)
        ensures
            match request {
                Some(request) => self@.pending() == Some(request@),
                None => self@.pending() is None,
            },
    {
        if self.done < self.plan.len() {
            Some(&self.plan[self.done])
        } else {
            None
        }
    }

    /// Takes the answer to the pending call: the bytes that were read, or no
    /// bytes if the call was not about reading.
    pub fn complete(self, reply: Result<Vec<u8>, Fault>) -> (next: Capture)
        requires
            self@.wf(),
            self@.pending() is Some,
        ensures
            next@ == self@.step(bytes_view(reply)),
            next@.wf(),
            next@.remaining() < self@.remaining(),
    {
        let ghost before = self@;
        let mut next = self;
        let len: usize = next.plan.len();
        let at: usize = next.done;
        assert(before.plan[at as int] == next.plan@[at as int]@);
        match reply {
            Err(fault) => {
                let error = next.plan[at].device_error(fault);
                if at < next.resume_at {
                    next.capture_error = Some(error);
                    next.done = next.resume_at;
                } else {
                    next.resume_error = Some(error);
                    next.done = len;
                }
            },
            Ok(bytes) => {
                match &next.plan[at] {
                    Request::Host(HostCall::ReadMemfd) => {
                        next.blob = Some(bytes);
                    },
                    _ => {},
                }
                next.done = at + 1;
            },
        }
        next
    }

    /// The device and the outcome, once no call is pending.
    pub fn finish(self) -> (outcome: (VhostUserFsImpl, Result<(), VhostUserFsError>))
        requires
            self@.wf(),
            self@.pending() is None,
        ensures
            (outcome.0@, outcome.1) == self@.outcome(),
    {
        let mut device = self.device;
        match self.capture_error {
            Some(error) => (device, Err(error)),
            None => {
                device.backend_state = self.blob;
                match self.resume_error {
                    Some(error) => (device, Err(error)),
                    None => (device, Ok(())),
                }
            },
        }
    }
}

impl CaptureView {
    proof fn lemma_run_push(
        self,
        replies: Seq<Result<Seq<u8>, Fault>>,
        last: Result<Seq<u8>, Fault>,
    )
        requires
            self.run(replies).pending() is Some,
        ensures
            self.run(replies.push(last)) == self.run(replies).step(last),
        decreases replies.len(),
    {
        let all = replies.push(last);
        if replies.len() == 0 {
            assert(all.drop_first() =~= Seq::empty());
            assert(self.step(last).run(Seq::empty()) == self.step(last));
        } else {
            assert(all.drop_first() =~= replies.drop_first().push(last));
            if self.pending() is Some {
                self.step(replies[0]).lemma_run_push(replies.drop_first(), last);
            }
        }
    }

    proof fn lemma_run_append(
        self,
        replies: Seq<Result<Seq<u8>, Fault>>,
        more: Seq<Result<Seq<u8>, Fault>>,
    )
        ensures
            self.run(replies + more) == self.run(replies).run(more),
        decreases replies.len(),
    {
        if replies.len() == 0 {
            assert(replies + more =~= more);
        } else if self.pending() is Some {
            assert((replies + more).drop_first() =~= replies.drop_first() + more);
            self.step(replies[0]).lemma_run_append(replies.drop_first(), more);
        }
    }

    /// Once the vrings are being enabled, what went wrong before is settled.
    proof fn lemma_run_keeps_capture_error(self, replies: Seq<Result<Seq<u8>, Fault>>)
        requires
            self.resume_at <= self.done,
        ensures
            self.run(replies).capture_error == self.capture_error,
            self.run(replies).device == self.device,
        decreases replies.len(),
    {
        if replies.len() > 0 && self.pending() is Some {
            self.step(replies[0]).lemma_run_keeps_capture_error(replies.drop_first());
        }
    }

    /// Once the vrings are being enabled, answers without a fault only go on
    /// with the plan.
    proof fn lemma_run_resume(self, replies: Seq<Result<Seq<u8>, Fault>>)
        requires
            self.resume_at <= self.done <= self.plan.len(),
            replies.len() <= self.plan.len() - self.done,
            forall|i: int| 0 <= i < replies.len() ==> #[trigger] replies[i] is Ok,
            forall|i: int|
                self.resume_at <= i < self.plan.len() ==> #[trigger] self.plan[i] != Call::Host(
                    HostCall::ReadMemfd,
                ),
        ensures
            self.run(replies) == (CaptureView { done: self.done + replies.len(), ..self }),
        decreases replies.len(),
    {
        if replies.len() > 0 {
            let rest = replies.drop_last();
            assert forall|i: int| 0 <= i < rest.len() implies #[trigger] rest[i] is Ok by {
                assert(replies[i] is Ok);
            }
            self.lemma_run_resume(rest);
            self.lemma_run_push(rest, replies.last());
            assert(rest.push(replies.last()) =~= replies);
            assert(replies[replies.len() - 1] is Ok);
        }
    }
}

impl DeviceView {
    /// Where in the capture plan the blob is read.
    pub open spec fn read_at(self) -> int {
        self.queues.len() as int + 5
    }

    /// What stands where in the capture plan.
    proof fn lemma_capture_plan(self)
        ensures
            ({
                let plan = self.capture_plan();
                let n = self.queues.len() as int;
                &&& plan.len() == 2 * n + 6
                &&& forall|i: int|
                    0 <= i < n ==> plan[i] == crate::plan::vrings_plan(self.queues.len(), false)[i]
                &&& forall|i: int|
                    n <= i < n + 6 ==> plan[i] == crate::plan::save_plan()[i - n]
                &&& forall|i: int|
                    n + 6 <= i < plan.len() ==> plan[i] == crate::plan::vrings_plan(
                        self.queues.len(),
                        true,
                    )[i - n - 6]
                &&& forall|i: int|
                    0 <= i < plan.len() ==> (#[trigger] plan[i] == Call::Host(HostCall::ReadMemfd)
                        <==> i == self.read_at())
            }),
    {
    }
}

/// As long as no call fails, the calls are those of the plan, in its order,
/// and what was read from the memfd is the blob.
pub proof fn law_capture_follows_plan(device: DeviceView, replies: Seq<Result<Seq<u8>, Fault>>)
    requires
        device.is_activated(),
        device.snapshot_capable(),
        replies.len() <= device.capture_plan().len(),
        forall|i: int| 0 <= i < replies.len() ==> #[trigger] replies[i] is Ok,
    ensures
        CaptureView::start(device).run(replies) == (CaptureView {
            done: replies.len() as int,
            blob: if replies.len() > device.read_at() {
                Some(replies[device.read_at()]->Ok_0)
            } else {
                None
            },
            ..CaptureView::start(device)
        }),
    decreases replies.len(),
{
    let start = CaptureView::start(device);
    device.lemma_capture_plan();
    if replies.len() > 0 {
        let rest = replies.drop_last();
        assert forall|i: int| 0 <= i < rest.len() implies #[trigger] rest[i] is Ok by {
            assert(replies[i] is Ok);
        }
        law_capture_follows_plan(device, rest);
        start.lemma_run_push(rest, replies.last());
        assert(rest.push(replies.last()) =~= replies);
        assert(replies[replies.len() - 1] is Ok);
    }
}

/// Where no call fails, all vrings are disabled, the backend saves its state,
/// all vrings are enabled again, and the device holds exactly the bytes that
/// were read. Nothing else of it changes.
pub proof fn law_capture_succeeds(device: DeviceView, replies: Seq<Result<Seq<u8>, Fault>>)
    requires
        device.is_activated(),
        device.snapshot_capable(),
        replies.len() == device.capture_plan().len(),
        forall|i: int| 0 <= i < replies.len() ==> #[trigger] replies[i] is Ok,
    ensures
        ({
            let end = CaptureView::start(device).run(replies);
            &&& end.pending() is None
            &&& end.outcome() == (
                DeviceView { backend_state: Some(replies[device.read_at()]->Ok_0), ..device },
                Ok::<(), VhostUserFsError>(()),
            )
        }),
{
    device.lemma_capture_plan();
    law_capture_follows_plan(device, replies);
}

/// Whichever call of quiescing and saving fails, the calls that follow enable
/// the vrings again, all of them, from the first on, for as long as that
/// succeeds; the first of them that fails is the last call.
pub proof fn law_failed_capture_resumes(
    device: DeviceView,
    replies: Seq<Result<Seq<u8>, Fault>>,
    fault: Fault,
    resumed: Seq<Result<Seq<u8>, Fault>>,
    resume_fault: Fault,
)
    requires
        device.is_activated(),
        device.snapshot_capable(),
        replies.len() < device.queues.len() + 6,
        forall|i: int| 0 <= i < replies.len() ==> #[trigger] replies[i] is Ok,
        resumed.len() <= device.queues.len(),
        forall|i: int| 0 <= i < resumed.len() ==> #[trigger] resumed[i] is Ok,
    ensures
        ({
            let failed = CaptureView::start(device).run(replies.push(Err(fault)));
            let resuming = failed.run(resumed);
            let enabling = crate::plan::vrings_plan(device.queues.len(), true);
            &&& failed.plan.skip(failed.done) == enabling
            &&& resumed.len() < enabling.len() ==> {
                &&& resuming.pending() == Some(enabling[resumed.len() as int])
                &&& resuming.step(Err(resume_fault)).pending() is None
            }
            &&& resumed.len() == enabling.len() ==> resuming.pending() is None
        }),
{
    let start = CaptureView::start(device);
    let failed = start.run(replies.push(Err(fault)));
    device.lemma_capture_plan();
    law_capture_follows_plan(device, replies);
    start.lemma_run_push(replies, Err(fault));
    assert(failed.plan.skip(failed.done) =~= crate::plan::vrings_plan(device.queues.len(), true));
    failed.lemma_run_resume(resumed);
}

/// What every finished capture reports, by the place `first` of the first
/// answer that is a fault, if there is one: a capture succeeds exactly if all
/// calls of the plan did, and else reports the error of the first one that
/// failed, be it one of the capture or one of resuming, whatever failed later.
/// The device holds a blob exactly if everything up to the reading succeeded,
/// and it is what was read.
pub proof fn law_capture_outcome(
    device: DeviceView,
    replies: Seq<Result<Seq<u8>, Fault>>,
    first: int,
)
    requires
        device.is_activated(),
        device.snapshot_capable(),
        CaptureView::start(device).run(replies).pending() is None,
        0 <= first <= replies.len(),
        forall|i: int| 0 <= i < first ==> #[trigger] replies[i] is Ok,
        first < replies.len() ==> replies[first] is Err,
    ensures
        ({
            let plan = device.capture_plan();
            let (after, result) = CaptureView::start(device).run(replies).outcome();
            &&& result == if first < plan.len() {
                Err(crate::plan::device_error(plan[first], replies[first]->Err_0))
            } else {
                Ok(())
            }
            &&& after == (DeviceView {
                backend_state: if first > device.read_at() {
                    Some(replies[device.read_at()]->Ok_0)
                } else {
                    None
                },
                ..device
            })
        }),
{
    let start = CaptureView::start(device);
    let plan = device.capture_plan();
    let len = plan.len() as int;
    let reached = if first < len {
        first
    } else {
        len
    };
    let passed = replies.take(reached);
    device.lemma_capture_plan();
    assert forall|i: int| 0 <= i < passed.len() implies #[trigger] passed[i] is Ok by {
        assert(replies[i] is Ok);
    }
    law_capture_follows_plan(device, passed);
    assert(replies =~= passed + replies.skip(reached));
    start.lemma_run_append(passed, replies.skip(reached));
    if first < len {
        // The run is finished, so the call at this place was answered.
        assert(first < replies.len()) by {
            if first == replies.len() {
                assert(passed =~= replies);
            }
        }
        let fault = replies[first]->Err_0;
        let failed = start.run(passed).step(Err(fault));
        let rest = replies.skip(reached);
        assert(rest[0] == Err::<Seq<u8>, Fault>(fault));
        assert(start.run(replies) == failed.run(rest.drop_first()));
        if first < device.queues.len() + 6 {
            failed.lemma_run_keeps_capture_error(rest.drop_first());
        }
    }
}

/// Where only the enabling of a vring fails, the outcome is that error, and
/// the device holds the blob all the same.
pub proof fn law_failed_resume_keeps_blob(
    device: DeviceView,
    replies: Seq<Result<Seq<u8>, Fault>>,
    fault: Fault,
)
    requires
        device.is_activated(),
        device.snapshot_capable(),
        device.queues.len() + 6 <= replies.len() < device.capture_plan().len(),
        forall|i: int| 0 <= i < replies.len() ==> #[trigger] replies[i] is Ok,
    ensures
        ({
            let end = CaptureView::start(device).run(replies.push(Err(fault)));
            &&& end.pending() is None
            &&& end.outcome() == (
                DeviceView { backend_state: Some(replies[device.read_at()]->Ok_0), ..device },
                Err::<(), _>(
                    VhostUserFsError::VhostUser(VhostUserError::VhostUserSetVringEnable(fault)),
                ),
            )
        }),
{
    let start = CaptureView::start(device);
    device.lemma_capture_plan();
    law_capture_follows_plan(device, replies);
    start.lemma_run_push(replies, Err(fault));
}

/// Capturing from a device that is not active makes no call, succeeds, and
/// leaves no blob.
pub proof fn law_inactive_capture_is_empty(device: DeviceView)
    requires
        !device.is_activated(),
    ensures
        CaptureView::start(device).pending() is None,
        CaptureView::start(device).outcome() == (
            device.without_blob(),
            Ok::<(), VhostUserFsError>(()),
        ),
{
}

/// Capturing from an active device whose backend cannot transfer its state is
/// refused without a call.
pub proof fn law_incapable_capture_is_refused(device: DeviceView)
    requires
        device.is_activated(),
        !device.snapshot_capable(),
    ensures
        CaptureView::start(device).pending() is None,
        CaptureView::start(device).outcome() == (
            device.without_blob(),
            Err::<(), _>(VhostUserFsError::DeviceStateNotNegotiated),
        ),
{
}

/// Whatever happens, a capture changes nothing of the device but the blob.
pub proof fn law_capture_changes_only_blob(
    device: DeviceView,
    replies: Seq<Result<Seq<u8>, Fault>>,
)
    ensures
        ({
            let (after, _) = CaptureView::start(device).run(replies).outcome();
            after.without_blob() == device.without_blob()
        }),
{
    CaptureView::start(device).lemma_run_keeps_device(replies);
}

impl CaptureView {
    proof fn lemma_run_keeps_device(self, replies: Seq<Result<Seq<u8>, Fault>>)
        ensures
            self.run(replies).device == self.device,
        decreases replies.len(),
    {
        if replies.len() > 0 && self.pending() is Some {
            self.step(replies[0]).lemma_run_keeps_device(replies.drop_first());
        }
    }
}

/// Whether a call switches a vring.
pub open spec fn switches(call: Call, enable: bool) -> bool {
    call is Vhost && call->Vhost_0 is SetVringEnable && call->Vhost_0->SetVringEnable_enable
        == enable
}

/// In the plan of a capture the backend writes into a fresh memfd for the state
/// of which it was given a duplicate, in the stopped phase, and the transfer is
/// checked; only then is the memfd rewound, and with the very next call it is
/// read. All of this lies between the last disabling and the first enabling of
/// a vring. There is one reading, and nothing is handed over or loaded.
pub proof fn law_blob_is_read_from_its_start(device: DeviceView)
    ensures
        ({
            let plan = device.capture_plan();
            let rewind = Call::Host(HostCall::RewindMemfd);
            let read = Call::Host(HostCall::ReadMemfd);
            let save = Call::Vhost(
                VhostCall::SetDeviceStateFd {
                    direction: TransferDirection::Save,
                    phase: TransferPhase::Stopped,
                },
            );
            let check = Call::Vhost(VhostCall::CheckDeviceState);
            let dup = Call::Host(HostCall::DupMemfd);
            let create = Call::Host(HostCall::CreateMemfd { name: MemfdName::State });
            &&& plan.contains(read)
            &&& forall|k: int|
                #![trigger plan[k]]
                0 <= k < plan.len() && plan[k] == read ==> {
                    &&& k >= 5
                    &&& plan[k - 1] == rewind
                    &&& plan[k - 2] == check
                    &&& plan[k - 3] == save
                    &&& plan[k - 4] == dup
                    &&& plan[k - 5] == create
                    &&& forall|j: int| 0 <= j < k - 5 ==> switches(#[trigger] plan[j], false)
                    &&& forall|j: int| k < j < plan.len() ==> switches(#[trigger] plan[j], true)
                }
        }),
{
    device.lemma_capture_plan();
    let plan = device.capture_plan();
    assert(plan[device.read_at()] == Call::Host(HostCall::ReadMemfd));
    assert forall|k: int| 0 <= k < plan.len() && #[trigger] plan[k] == Call::Host(
        HostCall::ReadMemfd,
    ) implies k == device.read_at() by {}
}

/// A capture switches every vring off and then on again, all in the order of
/// the queues, and takes six calls besides.
pub proof fn law_capture_switches_every_vring(device: DeviceView)
    requires
        device.queues.len() <= usize::MAX,
    ensures
        ({
            let plan = device.capture_plan();
            let n = device.queues.len() as int;
            &&& plan.len() == 2 * n + 6
            &&& forall|i: int|
                #![trigger plan[i]]
                0 <= i < n ==> plan[i] == Call::Vhost(
                    VhostCall::SetVringEnable { index: i as usize, enable: false },
                )
            &&& forall|k: int|
                #![trigger plan[k]]
                n + 6 <= k < plan.len() ==> plan[k] == Call::Vhost(
                    VhostCall::SetVringEnable { index: (k - n - 6) as usize, enable: true },
                )
        }),
{
    device.lemma_capture_plan();
}

/// As long as no call fails, the call that is next is the one at its place in
/// the plan, until none is left.
pub proof fn law_capture_asks_plan(device: DeviceView, replies: Seq<Result<Seq<u8>, Fault>>)
    requires
        device.is_activated(),
        device.snapshot_capable(),
        replies.len() <= device.capture_plan().len(),
        forall|i: int| 0 <= i < replies.len() ==> #[trigger] replies[i] is Ok,
    ensures
        CaptureView::start(device).run(replies).pending() == if replies.len()
            < device.capture_plan().len() {
            Some(device.capture_plan()[replies.len() as int])
        } else {
            None
        },
{
    law_capture_follows_plan(device, replies);
}

/// The error of a capture names the call that failed.
pub proof fn law_capture_error_names_call(call: Call, fault: Fault)
    ensures
        ({
            let error = crate::plan::device_error(call, fault);
            match call {
                Call::Vhost(VhostCall::SetVringEnable { .. }) => error
                    == VhostUserFsError::VhostUser(VhostUserError::VhostUserSetVringEnable(fault)),
                Call::Vhost(VhostCall::SetDeviceStateFd { .. }) => error
                    == VhostUserFsError::VhostUser(
                    VhostUserError::VhostUserSetDeviceStateFd(fault),
                ),
                Call::Vhost(VhostCall::CheckDeviceState) => error == VhostUserFsError::VhostUser(
                    VhostUserError::VhostUserCheckDeviceState(fault),
                ),
                Call::Host(HostCall::CreateMemfd { .. }) => error == VhostUserFsError::Memfd(fault),
                Call::Host(HostCall::DupMemfd)
                | Call::Host(HostCall::RewindMemfd)
                | Call::Host(HostCall::ReadMemfd) => error
                    == VhostUserFsError::DeviceStateTransfer(fault),
                _ => true,
            }
        }),
{
}

/// What is told of a capture, and of what it is answered, is what it holds and
/// what was answered.
pub proof fn law_view_is_the_capture(capture: Capture, reply: Result<Vec<u8>, Fault>)
    ensures
        capture@.device == capture.device@,
        capture@.done == capture.done,
        capture@.resume_at == capture.resume_at,
        capture@.blob is Some <==> capture.blob is Some,
        capture.blob matches Some(blob) ==> capture@.blob == Some(blob@),
        capture@.capture_error == capture.capture_error,
        capture@.resume_error == capture.resume_error,
        capture@.plan.len() == capture.plan@.len(),
        forall|i: int|
            0 <= i < capture.plan@.len() ==> #[trigger] capture@.plan[i] == capture.plan@[i]@,
        reply matches Ok(bytes) ==> bytes_view(reply) == Ok::<_, Fault>(bytes@),
        reply matches Err(fault) ==> bytes_view(reply) == Err::<Seq<u8>, _>(fault),
{
}

} // verus!
