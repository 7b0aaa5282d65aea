//! Activating a device: handing it over to the backend.

use vstd::prelude::*;

use crate::device::{
    ActiveState, DeviceState, DeviceView, VhostUserDeviceMetrics, VhostUserFsImpl,
};
use crate::error::{ActivateError, Fault, VhostUserError, VhostUserFsError};
use crate::request::{Call, HostCall, Request, VhostCall, VmCall};

verus! {

/// The activation of a device.
#[derive(PartialEq, Eq)]
pub struct Activation {
    pub device: VhostUserFsImpl,
    pub mem: u64,
    pub interrupt: u64,
    /// All calls of the activation.
    pub plan: Vec<Request>,
    /// How many of them have been made.
    pub done: usize,
    /// Why the activation ended early.
    pub failure: Option<ActivateError>,
}

/// The activation of a device as a mathematical value.
pub struct ActivationView {
    pub device: DeviceView,
    pub mem: u64,
    pub interrupt: u64,
    pub plan: Seq<Call>,
    pub done: int,
    pub failure: Option<ActivateError>,
}

impl View for Activation {
    type V = ActivationView;

    open spec fn view(&self) -> ActivationView {
        ActivationView {
            device: self.device@,
            mem: self.mem,
            interrupt: self.interrupt,
            plan: crate::request::calls(self.plan@),
            done: self.done as int,
            failure: self.failure,
        }
    }
}

impl DeviceView {
    /// What a successful call of the activation does to the device. The blob
    /// of the backend is consumed once the features are set.
    pub open spec fn after_activation_call(self, call: Call, value: u64) -> DeviceView {
        match call {
            Call::Vhost(VhostCall::SetFeatures { .. }) => DeviceView {
                backend_state: None,
                ..self
            },
            Call::Host(HostCall::CreateEventFd { .. }) => DeviceView {
                backend_req_stop: Some(value),
                ..self
            },
            Call::Host(HostCall::SpawnReqThread) => DeviceView {
                backend_req_thread: Some(value),
                ..self
            },
            _ => self,
        }
    }

    /// What a failed call of the activation does to the device: it is counted,
    /// unless it was about a queue.
    pub open spec fn after_activation_failure(self, call: Call) -> DeviceView {
        if call is Vm {
            self
        } else {
            DeviceView {
                metrics: VhostUserDeviceMetrics {
                    activate_fails: self.metrics.activate_fails.wrapping_add(1),
                    ..self.metrics
                },
                ..self
            }
        }
    }
}

impl ActivationView {
    /// The start: nothing has been called.
    pub open spec fn start(device: DeviceView, mem: u64, interrupt: u64) -> ActivationView {
        ActivationView {
            device,
            mem,
            interrupt,
            plan: device.activation_plan(mem, interrupt),
            done: 0,
            failure: None,
        }
    }

    pub open spec fn active_state(self) -> DeviceState {
        DeviceState::Activated(ActiveState { mem: self.mem, interrupt: self.interrupt })
    }

    /// The device is active exactly when all calls have been made.
    pub open spec fn wf(self) -> bool {
        &&& 0 <= self.done <= self.plan.len()
        &&& self.failure is Some ==> self.done < self.plan.len()
        &&& self.device.device_state == if self.done == self.plan.len() {
            self.active_state()
        } else {
            DeviceState::Inactive
        }
    }

    /// The call that is next, if any.
    pub open spec fn pending(self) -> Option<Call> {
        if self.failure is None && self.done < self.plan.len() {
            Some(self.plan[self.done])
        } else {
            None
        }
    }

    /// At most so many calls are still to be made.
    pub open spec fn remaining(self) -> nat {
        if self.failure is None {
            (self.plan.len() - self.done) as nat
        } else {
            0
        }
    }

    /// Starting a thread gives a thread.
    pub open spec fn can_answer(self, reply: Result<u64, Fault>) -> bool {
        self.pending() == Some(Call::Host(HostCall::SpawnReqThread)) ==> reply is Ok
    }

    /// What the answer to the pending call makes of it: a fault ends the
    /// activation, the answer to the last call makes the device active.
    pub open spec fn step(self, reply: Result<u64, Fault>) -> ActivationView {
        let call = self.plan[self.done];
        match reply {
            Err(fault) if !call.cannot_fail() => ActivationView {
                device: self.device.after_activation_failure(call),
                failure: Some(crate::plan::activate_error(call, fault)),
                ..self
            },
            _ => {
                let device = match reply {
                    Ok(value) => self.device.after_activation_call(call, value),
                    Err(_) => self.device,
                };
                ActivationView {
                    device: DeviceView {
                        device_state: if self.done + 1 == self.plan.len() {
                            self.active_state()
                        } else {
                            device.device_state
                        },
                        ..device
                    },
                    done: self.done + 1,
                    ..self
                }
            },
        }
    }

    /// What becomes of the activation when its calls are answered in turn.
    pub open spec fn run(self, replies: Seq<Result<u64, Fault>>) -> ActivationView
        decreases replies.len(),
    {
        if replies.len() == 0 || self.pending() is None {
            self
        } else {
            self.step(replies[0]).run(replies.drop_first())
        }
    }
}

impl VhostUserFsImpl {
    /// Starts to activate the device with the given guest memory and
    /// interrupt.
    pub fn activate(self, mem: u64, interrupt: u64) -> (activation: Activation)
        requires
            !self@.is_activated(),
        ensures
            activation@ == ActivationView::start(self@, mem, interrupt),
            activation@.wf(),
    {
        let plan = self.activation_calls(mem, interrupt);
        assert(self@.activation_plan(mem, interrupt).len() > 0);
        Activation { device: self, mem, interrupt, plan, done: 0, failure: None }
    }
}

impl Activation {
    /// The call that is next, if any.
    pub fn pending(&self) -> (request: Option<&Request>)
        requires
            self@.wf(),
        ensures
            match request {
                Some(request) => self@.pending() == Some(request@),
                None => self@.pending() is None,
            },
    {
        if self.failure.is_none() && self.done < self.plan.len() {
            Some(&self.plan[self.done])
        } else {
            None
        }
    }

    /// Takes the answer to the pending call.
    pub fn complete(self, reply: Result<u64, Fault>) -> (next: Activation)
        requires
            self@.wf(),
            self@.pending() is Some,
            self@.can_answer(reply),
        ensures
            next@ == self@.step(reply),
            next@.wf(),
            next@.remaining() < self@.remaining(),
    {
        let ghost before = self@;
        let mut next = self;
        let len: usize = next.plan.len();
        let at: usize = next.done;
        assert(before.plan[at as int] == next.plan@[at as int]@);
        match reply {
            Err(fault) => {
                if !next.plan[at].cannot_fail() {
                    match &next.plan[at] {
                        Request::Vm(_) => {},
                        _ => {
                            next.device.metrics.activate_fails =
                            next.device.metrics.activate_fails.wrapping_add(1);
                        },
                    }
                    next.failure = Some(next.plan[at].activate_error(fault));
                    return next;
                }
            },
            Ok(value) => match &next.plan[at] {
                Request::Vhost(VhostCall::SetFeatures { .. }) => {
                    next.device.backend_state = None;
                },
                Request::Host(HostCall::CreateEventFd { .. }) => {
                    next.device.backend_req_stop = Some(value);
                },
                Request::Host(HostCall::SpawnReqThread) => {
                    next.device.backend_req_thread = Some(value);
                },
                _ => {},
            },
        }
        next.done = at + 1;
        if next.done == len {
            next.device.device_state = DeviceState::Activated(
                ActiveState { mem: next.mem, interrupt: next.interrupt },
            );
        }
        next
    }

    /// The device and the outcome, once no call is pending.
    pub fn finish(self) -> (outcome: (VhostUserFsImpl, Result<(), ActivateError>))
        requires
            self@.wf(),
            self@.pending() is None,
        ensures
            outcome.0@ == self@.device,
            outcome.1 == match self@.failure {
                Some(error) => Err::<(), _>(error),
                None => Ok(()),
            },
            outcome.1 is Ok <==> outcome.0@.is_activated(),
    {
        match self.failure {
            Some(error) => (self.device, Err(error)),
            None => (self.device, Ok(())),
        }
    }
}

impl DeviceView {
    /// Where in the activation plan the features are set, behind the queues.
    pub open spec fn features_at(self) -> int {
        self.queues.len() as int
    }

    /// Where the loading of the blob starts.
    pub open spec fn load_at(self) -> int {
        self.features_at() + 1
    }

    /// Where the opening of the request channel starts.
    pub open spec fn handler_at(self) -> int {
        self.load_at() + self.load_part().len()
    }

    /// Where the memory and the queues are handed over.
    pub open spec fn setup_at(self) -> int {
        self.handler_at() + self.handler_part().len()
    }

    pub open spec fn vrings(self) -> int {
        crate::plan::handed_over(self.queues, self.queue_evts) as int
    }

    /// Where a queue is handed over: the first of its five calls.
    pub open spec fn vring_at(self, i: int) -> int {
        self.setup_at() + 1 + self.vrings() + 5 * i
    }

    /// Where the fence is: the last call.
    pub open spec fn fence_at(self) -> int {
        self.vring_at(self.vrings())
    }

    /// The device after the calls that the given replies answer, where none of
    /// them failed.
    pub open spec fn partly_activated(
        self,
        mem: u64,
        interrupt: u64,
        replies: Seq<Result<u64, Fault>>,
    ) -> DeviceView {
        let stop_at = self.handler_at() + 2;
        let thread_at = self.handler_at() + 3;
        DeviceView {
            device_state: if replies.len() == self.fence_at() + 1 {
                DeviceState::Activated(ActiveState { mem, interrupt })
            } else {
                self.device_state
            },
            backend_state: if replies.len() > self.features_at() {
                None
            } else {
                self.backend_state
            },
            backend_req_stop: if self.dax_window is Some && replies.len() > stop_at {
                Some(replies[stop_at]->Ok_0)
            } else {
                self.backend_req_stop
            },
            backend_req_thread: if self.dax_window is Some && replies.len() > thread_at {
                Some(replies[thread_at]->Ok_0)
            } else {
                self.backend_req_thread
            },
            ..self
        }
    }

    /// What stands where in the activation plan.
    pub open spec fn activation_call(self, mem: u64, interrupt: u64, i: int) -> Call {
        if i < self.features_at() {
            Call::Vm(VmCall::InitializeQueue { index: i as usize, mem })
        } else if i == self.features_at() {
            Call::Vhost(VhostCall::SetFeatures { features: self.acked_features })
        } else if i < self.handler_at() {
            self.load_part()[i - self.load_at()]
        } else if i < self.setup_at() {
            self.handler_part()[i - self.handler_at()]
        } else if i == self.setup_at() {
            Call::Vhost(VhostCall::SetMemTable { mem })
        } else if i < self.vring_at(0) {
            let index = i - self.setup_at() - 1;
            Call::Vhost(
                VhostCall::SetVringNum { index: index as usize, num: self.queues[index].size },
            )
        } else if i < self.fence_at() {
            let k = i - self.vring_at(0);
            crate::plan::vring_call(self.queues, self.queue_evts, interrupt, k / 5, k % 5)
        } else {
            Call::Vhost(VhostCall::GetProtocolFeatures)
        }
    }

    proof fn lemma_activation_len(self, mem: u64, interrupt: u64)
        ensures
            self.activation_plan(mem, interrupt).len() == self.fence_at() + 1,
    {
    }

    proof fn lemma_activation_call(self, mem: u64, interrupt: u64, i: int)
        requires
            0 <= i <= self.fence_at(),
        ensures
            self.activation_plan(mem, interrupt)[i] == self.activation_call(mem, interrupt, i),
    {
    }
}

impl DeviceView {
    /// Which calls of the activation plan give something to the device.
    proof fn lemma_calls_that_give(self, mem: u64, interrupt: u64, at: int)
        requires
            0 <= at <= self.fence_at(),
        ensures
            ({
                let call = self.activation_plan(mem, interrupt)[at];
                &&& call is Vhost && call->Vhost_0 is SetFeatures <==> at == self.features_at()
                &&& call is Host && call->Host_0 is CreateEventFd <==> (self.dax_window is Some
                    && at == self.handler_at() + 2)
                &&& call is Host && call->Host_0 is SpawnReqThread <==> (self.dax_window is Some
                    && at == self.handler_at() + 3)
            }),
    {
        self.lemma_activation_call(mem, interrupt, at);
    }

    /// One more call that does not fail.
    proof fn lemma_step_of_plan(
        self,
        mem: u64,
        interrupt: u64,
        replies: Seq<Result<u64, Fault>>,
        last: Result<u64, Fault>,
    )
        requires
            replies.len() <= self.fence_at(),
            ({
                let call = self.activation_plan(mem, interrupt)[replies.len() as int];
                last is Ok || (call.cannot_fail() && call != Call::Host(HostCall::SpawnReqThread))
            }),
        ensures
            ({
                let plan = self.activation_plan(mem, interrupt);
                let at = replies.len() as int;
                let before = self.partly_activated(mem, interrupt, replies);
                let given = match last {
                    Ok(value) => before.after_activation_call(plan[at], value),
                    Err(_) => before,
                };
                self.partly_activated(mem, interrupt, replies.push(last)) == (DeviceView {
                    device_state: if at == self.fence_at() {
                        DeviceState::Activated(ActiveState { mem, interrupt })
                    } else {
                        given.device_state
                    },
                    ..given
                })
            }),
    {
        let at = replies.len() as int;
        let all = replies.push(last);
        self.lemma_calls_that_give(mem, interrupt, at);
        assert(forall|i: int| 0 <= i < at ==> all[i] == replies[i]);
        assert(self.handler_at() >= self.load_at());
        assert(self.dax_window is Some ==> self.fence_at() >= self.handler_at() + 5);
    }
}

impl ActivationView {
    /// Whether none of the given answers ends the activation.
    pub open spec fn passed_by(self, replies: Seq<Result<u64, Fault>>) -> bool {
        &&& replies.len() <= self.plan.len()
        &&& forall|i: int|
            0 <= i < replies.len() ==> #[trigger] replies[i] is Ok || {
                &&& self.plan[i].cannot_fail()
                &&& self.plan[i] != Call::Host(HostCall::SpawnReqThread)
            }
    }

    proof fn lemma_run_push(self, replies: Seq<Result<u64, Fault>>, last: Result<u64, Fault>)
        requires
            self.run(replies).pending() is Some,
        ensures
            self.run(replies.push(last)) == self.run(replies).step(last),
        decreases replies.len(),
    {
        let all = replies.push(last);
        if replies.len() == 0 {
            assert(all.drop_first() =~= Seq::empty());
            assert(self.step(last).run(Seq::empty()) == self.step(last));
        } else {
            assert(all.drop_first() =~= replies.drop_first().push(last));
            if self.pending() is Some {
                self.step(replies[0]).lemma_run_push(replies.drop_first(), last);
            }
        }
    }
}

/// As long as no call fails, the calls are those of the plan, in its order,
/// and nothing of the device changes but what the calls give: the blob is
/// consumed once the features are set, the eventfd and the thread of the
/// request channel are kept, and with the last call the device is active.
pub proof fn law_activation_follows_plan(
    device: DeviceView,
    mem: u64,
    interrupt: u64,
    replies: Seq<Result<u64, Fault>>,
)
    requires
        !device.is_activated(),
        ActivationView::start(device, mem, interrupt).passed_by(replies),
    ensures
        ({
            let end = ActivationView::start(device, mem, interrupt).run(replies);
            &&& end.plan == device.activation_plan(mem, interrupt)
            &&& end.done == replies.len()
            &&& end.failure is None
            &&& end.device == device.partly_activated(mem, interrupt, replies)
            &&& end.mem == mem
            &&& end.interrupt == interrupt
            &&& end.wf()
            &&& replies.len() < end.plan.len() ==> end.pending() == Some(
                end.plan[replies.len() as int],
            )
            &&& replies.len() == end.plan.len() ==> end.pending() is None
        }),
    decreases replies.len(),
{
    let start = ActivationView::start(device, mem, interrupt);
    device.lemma_activation_len(mem, interrupt);
    if replies.len() > 0 {
        let rest = replies.drop_last();
        let last = replies.last();
        let at = rest.len() as int;
        assert forall|i: int| 0 <= i < rest.len() implies #[trigger] rest[i] is Ok || {
            &&& start.plan[i].cannot_fail()
            &&& start.plan[i] != Call::Host(HostCall::SpawnReqThread)
        } by {
            assert(rest[i] == replies[i]);
        }
        law_activation_follows_plan(device, mem, interrupt, rest);
        start.lemma_run_push(rest, last);
        assert(rest.push(last) =~= replies);
        assert(replies[at] == last);
        device.lemma_step_of_plan(mem, interrupt, rest, last);
    }
}

/// Where no call fails, the device is active in the end, with the guest memory
/// and the interrupt that it was given, and has consumed its blob.
pub proof fn law_activation_succeeds(
    device: DeviceView,
    mem: u64,
    interrupt: u64,
    replies: Seq<Result<u64, Fault>>,
)
    requires
        !device.is_activated(),
        ActivationView::start(device, mem, interrupt).passed_by(replies),
        replies.len() == device.activation_plan(mem, interrupt).len(),
    ensures
        ({
            let end = ActivationView::start(device, mem, interrupt).run(replies);
            &&& end.pending() is None
            &&& end.failure is None
            &&& end.device.device_state == DeviceState::Activated(ActiveState { mem, interrupt })
            &&& end.device.backend_state is None
            &&& end.device.metrics == device.metrics
            &&& device.wf() ==> end.device.wf()
        }),
{
    device.lemma_activation_len(mem, interrupt);
    law_activation_follows_plan(device, mem, interrupt, replies);
}

/// The first call that fails ends the activation with its error. The device
/// stays inactive, the failure is counted unless it was about a queue, and the
/// blob is kept exactly if the features were not set before.
pub proof fn law_activation_fails(
    device: DeviceView,
    mem: u64,
    interrupt: u64,
    replies: Seq<Result<u64, Fault>>,
    fault: Fault,
)
    requires
        !device.is_activated(),
        ActivationView::start(device, mem, interrupt).passed_by(replies),
        replies.len() < device.activation_plan(mem, interrupt).len(),
        !device.activation_plan(mem, interrupt)[replies.len() as int].cannot_fail(),
    ensures
        ({
            let call = device.activation_plan(mem, interrupt)[replies.len() as int];
            let end = ActivationView::start(device, mem, interrupt).run(replies.push(Err(fault)));
            &&& end.pending() is None
            &&& end.failure == Some(crate::plan::activate_error(call, fault))
            &&& !end.device.is_activated()
            &&& end.device.metrics.activate_fails == if call is Vm {
                device.metrics.activate_fails
            } else {
                device.metrics.activate_fails.wrapping_add(1)
            }
            &&& end.device.backend_state == if replies.len() <= device.features_at() {
                device.backend_state
            } else {
                None
            }
            &&& device.wf() ==> end.device.wf()
        }),
{
    let start = ActivationView::start(device, mem, interrupt);
    law_activation_follows_plan(device, mem, interrupt, replies);
    device.lemma_activation_len(mem, interrupt);
    start.lemma_run_push(replies, Err(fault));
}

/// Whether a call is part of handing memory or queues over to the backend.
pub open spec fn hands_over(call: Call) -> bool {
    match call {
        Call::Vhost(VhostCall::SetMemTable { .. }) => true,
        Call::Vhost(VhostCall::SetVringNum { .. }) => true,
        Call::Vhost(VhostCall::SetVringAddr { .. }) => true,
        Call::Vhost(VhostCall::SetVringBase { .. }) => true,
        Call::Vhost(VhostCall::SetVringCall { .. }) => true,
        Call::Vhost(VhostCall::SetVringKick { .. }) => true,
        Call::Vhost(VhostCall::SetVringEnable { .. }) => true,
        _ => false,
    }
}

/// A blob is loaded into the backend, byte for byte, right after the features
/// are set, the transfer is checked with the next call, and nothing is handed
/// over to the backend before. Without a blob nothing is loaded.
#[verifier::rlimit(30)]
pub proof fn law_load_precedes_hand_over(device: DeviceView, mem: u64, interrupt: u64)
    ensures
        ({
            let plan = device.activation_plan(mem, interrupt);
            let features = device.features_at();
            let load = Call::Vhost(
                VhostCall::SetDeviceStateFd {
                    direction: crate::request::TransferDirection::Load,
                    phase: crate::request::TransferPhase::Stopped,
                },
            );
            &&& plan[features] == Call::Vhost(
                VhostCall::SetFeatures { features: device.acked_features },
            )
            &&& device.backend_state matches Some(blob) ==> {
                &&& plan[features + 2] == (Call::WriteMemfd { bytes: blob })
                &&& plan[features + 3] == Call::Host(HostCall::RewindMemfd)
                &&& plan[features + 4] == load
                &&& plan[features + 5] == Call::Vhost(VhostCall::CheckDeviceState)
                &&& forall|i: int| 0 <= i <= features + 5 ==> !hands_over(#[trigger] plan[i])
            }
            &&& forall|i: int|
                0 <= i < plan.len() && #[trigger] plan[i] == load ==> device.backend_state is Some
                    && i == features + 4
        }),
{
    let plan = device.activation_plan(mem, interrupt);
    let features = device.features_at();
    let load = Call::Vhost(
        VhostCall::SetDeviceStateFd {
            direction: crate::request::TransferDirection::Load,
            phase: crate::request::TransferPhase::Stopped,
        },
    );
    device.lemma_activation_len(mem, interrupt);
    device.lemma_activation_call(mem, interrupt, features);
    if device.backend_state is Some {
        device.lemma_activation_call(mem, interrupt, features + 2);
        device.lemma_activation_call(mem, interrupt, features + 3);
        device.lemma_activation_call(mem, interrupt, features + 4);
        device.lemma_activation_call(mem, interrupt, features + 5);
        assert forall|i: int| 0 <= i <= features + 5 implies !hands_over(#[trigger] plan[i]) by {
            device.lemma_activation_call(mem, interrupt, i);
        }
    }
    assert forall|i: int| 0 <= i < plan.len() && #[trigger] plan[i] == load implies
        device.backend_state is Some && i == features + 4 by {
        device.lemma_activation_call(mem, interrupt, i);
    }
}

/// Every queue that has an eventfd is handed over, is enabled exactly once, as
/// the last of its calls, and the queues are enabled in their order.
pub proof fn law_every_vring_enabled_once(device: DeviceView, mem: u64, interrupt: u64)
    requires
        device.queues.len() <= usize::MAX,
    ensures
        ({
            let plan = device.activation_plan(mem, interrupt);
            &&& forall|i: int|
                0 <= i < device.vrings() ==> plan[#[trigger] device.vring_at(i) + 4]
                    == Call::Vhost(VhostCall::SetVringEnable { index: i as usize, enable: true })
            &&& forall|k: int|
                #![trigger plan[k]]
                0 <= k < plan.len() && plan[k] is Vhost && plan[k]->Vhost_0 is SetVringEnable ==> {
                    let index = plan[k]->Vhost_0->SetVringEnable_index;
                    &&& index < device.vrings()
                    &&& k == device.vring_at(index as int) + 4
                }
            &&& device.wf() ==> device.vrings() == device.queues.len()
        }),
{
    let plan = device.activation_plan(mem, interrupt);
    device.lemma_activation_len(mem, interrupt);
    assert forall|i: int| 0 <= i < device.vrings() implies plan[#[trigger] device.vring_at(i) + 4]
        == Call::Vhost(VhostCall::SetVringEnable { index: i as usize, enable: true }) by {
        device.lemma_activation_call(mem, interrupt, device.vring_at(i) + 4);
    }
    assert forall|k: int|
        #![trigger plan[k]]
        0 <= k < plan.len() && plan[k] is Vhost && plan[k]->Vhost_0 is SetVringEnable implies {
        let index = plan[k]->Vhost_0->SetVringEnable_index;
        &&& index < device.vrings()
        &&& k == device.vring_at(index as int) + 4
    } by {
        device.lemma_activation_call(mem, interrupt, k);
    }
}

/// The activation ends with a request that the backend has to answer, and has
/// no other such fence: when the answer arrives, the backend has seen every
/// enabling.
pub proof fn law_fence_closes_activation(device: DeviceView, mem: u64, interrupt: u64)
    ensures
        ({
            let plan = device.activation_plan(mem, interrupt);
            let fence = Call::Vhost(VhostCall::GetProtocolFeatures);
            &&& plan.last() == fence
            &&& forall|i: int| 0 <= i < plan.len() - 1 ==> #[trigger] plan[i] != fence
        }),
{
    let plan = device.activation_plan(mem, interrupt);
    device.lemma_activation_len(mem, interrupt);
    device.lemma_activation_call(mem, interrupt, device.fence_at());
    assert forall|i: int| 0 <= i < plan.len() - 1 implies #[trigger] plan[i] != Call::Vhost(
        VhostCall::GetProtocolFeatures,
    ) by {
        device.lemma_activation_call(mem, interrupt, i);
    }
}

/// With a DAX window, the thread that serves the backend is started right
/// before the backend gets its end of the request channel, and both happen
/// before any queue is handed over. Without one there is no request channel.
#[verifier::rlimit(30)]
pub proof fn law_request_channel_is_served(device: DeviceView, mem: u64, interrupt: u64)
    ensures
        ({
            let plan = device.activation_plan(mem, interrupt);
            let at = device.handler_at();
            &&& device.dax_window matches Some(window) ==> {
                &&& plan[at] == Call::Host(
                    HostCall::NewReqHandler {
                        window_host_addr: window.host_addr,
                        window_size: window.size,
                    },
                )
                &&& plan[at + 3] == Call::Host(HostCall::SpawnReqThread)
                &&& plan[at + 4] == Call::Vhost(VhostCall::SetBackendRequestFd)
                &&& forall|i: int| 0 <= i <= at + 4 ==> !hands_over(#[trigger] plan[i])
            }
            &&& device.dax_window is None ==> forall|i: int|
                0 <= i < plan.len() ==> #[trigger] plan[i] != Call::Vhost(
                    VhostCall::SetBackendRequestFd,
                )
        }),
{
    let plan = device.activation_plan(mem, interrupt);
    device.lemma_activation_len(mem, interrupt);
    assert forall|i: int| 0 <= i < plan.len() implies #[trigger] plan[i]
        == device.activation_call(mem, interrupt, i) by {
        device.lemma_activation_call(mem, interrupt, i);
    }
}

/// A step of the handing over of a queue.
pub struct QueueStep {
    pub index: int,
    pub step: int,
}

/// Which step of the handing over of which queue a call is: initializing it,
/// its size, its rings, how far the driver has come, the eventfd for the
/// guest, the eventfd of the driver, and last the enabling.
pub open spec fn queue_step(call: Call) -> Option<QueueStep> {
    match call {
        Call::Vm(VmCall::InitializeQueue { index, .. }) => Some(
            QueueStep { index: index as int, step: 0 },
        ),
        Call::Vhost(VhostCall::SetVringNum { index, .. }) => Some(
            QueueStep { index: index as int, step: 1 },
        ),
        Call::Vhost(VhostCall::SetVringAddr { index, .. }) => Some(
            QueueStep { index: index as int, step: 2 },
        ),
        Call::Vhost(VhostCall::SetVringBase { index, .. }) => Some(
            QueueStep { index: index as int, step: 3 },
        ),
        Call::Vhost(VhostCall::SetVringCall { index, .. }) => Some(
            QueueStep { index: index as int, step: 4 },
        ),
        Call::Vhost(VhostCall::SetVringKick { index, .. }) => Some(
            QueueStep { index: index as int, step: 5 },
        ),
        Call::Vhost(VhostCall::SetVringEnable { index, .. }) => Some(
            QueueStep { index: index as int, step: 6 },
        ),
        _ => None,
    }
}

/// Whether some call is the given step of the given queue.
pub open spec fn goes_through(plan: Seq<Call>, index: int, step: int) -> bool {
    exists|k: int|
        0 <= k < plan.len() && #[trigger] queue_step(plan[k]) == Some(QueueStep { index, step })
}

impl DeviceView {
    /// Whether what a call says of the queues, the memory and the features is
    /// true of the device and of what it is activated with.
    pub open spec fn tells_the_truth(self, mem: u64, interrupt: u64, call: Call) -> bool {
        match call {
            Call::Vm(VmCall::InitializeQueue { index, mem: given }) => {
                &&& index < self.queues.len()
                &&& given == mem
            },
            Call::Vhost(VhostCall::SetVringNum { index, num }) => {
                &&& index < self.queues.len() && index < self.queue_evts.len()
                &&& num == self.queues[index as int].size
            },
            Call::Vhost(VhostCall::SetVringAddr { index, queue }) => {
                &&& index < self.queues.len() && index < self.queue_evts.len()
                &&& queue == self.queues[index as int]
            },
            Call::Vhost(VhostCall::SetVringBase { index, queue }) => {
                &&& index < self.queues.len() && index < self.queue_evts.len()
                &&& queue == self.queues[index as int]
            },
            Call::Vhost(VhostCall::SetVringCall { index, interrupt: given }) => {
                &&& index < self.queues.len() && index < self.queue_evts.len()
                &&& given == interrupt
            },
            Call::Vhost(VhostCall::SetVringKick { index, evt }) => {
                &&& index < self.queues.len() && index < self.queue_evts.len()
                &&& evt == self.queue_evts[index as int]
            },
            Call::Vhost(VhostCall::SetVringEnable { index, enable }) => {
                &&& index < self.queues.len() && index < self.queue_evts.len()
                &&& enable
            },
            Call::Vhost(VhostCall::SetMemTable { mem: given }) => given == mem,
            Call::Vhost(VhostCall::SetFeatures { features }) => features == self.acked_features,
            _ => true,
        }
    }
}

/// Whatever a call of the activation says of a queue is true of that queue: it
/// is one of the device, and one with an eventfd if it is handed over, it is
/// initialized with the guest memory, its size and rings are its own, it
/// signals the guest by the given interrupt and is kicked by its own eventfd,
/// and it is only ever enabled. Memory and features are those of the
/// activation.
pub proof fn law_activation_tells_the_truth(device: DeviceView, mem: u64, interrupt: u64)
    requires
        device.queues.len() <= usize::MAX,
    ensures
        ({
            let plan = device.activation_plan(mem, interrupt);
            forall|k: int|
                0 <= k < plan.len() ==> device.tells_the_truth(mem, interrupt, #[trigger] plan[k])
        }),
{
    let plan = device.activation_plan(mem, interrupt);
    device.lemma_activation_len(mem, interrupt);
    assert forall|k: int| 0 <= k < plan.len() implies device.tells_the_truth(
        mem,
        interrupt,
        #[trigger] plan[k],
    ) by {
        device.lemma_activation_call(mem, interrupt, k);
    }
}

/// Every queue is initialized, and every queue that has an eventfd goes through
/// all further steps of its handing over, each of them once and in their order:
/// of two calls about one queue the later one is a later step.
pub proof fn law_every_queue_goes_through_all_steps(device: DeviceView, mem: u64, interrupt: u64)
    requires
        device.queues.len() <= usize::MAX,
    ensures
        ({
            let plan = device.activation_plan(mem, interrupt);
            &&& forall|i: int, step: int|
                0 <= i < device.queues.len() && 0 <= step <= 6 && (step == 0 || i
                    < device.queue_evts.len()) ==> #[trigger] goes_through(
                    plan,
                    i,
                    step,
                )
            &&& forall|j: int, k: int|
                #![trigger plan[j], plan[k]]
                {
                    &&& 0 <= j < k < plan.len()
                    &&& queue_step(plan[j]) is Some
                    &&& queue_step(plan[k]) is Some
                    &&& queue_step(plan[j])->0.index == queue_step(plan[k])->0.index
                } ==> queue_step(plan[j])->0.step < queue_step(plan[k])->0.step
        }),
{
    let plan = device.activation_plan(mem, interrupt);
    device.lemma_activation_len(mem, interrupt);
    assert forall|i: int, step: int|
        0 <= i < device.queues.len() && 0 <= step <= 6 && (step == 0 || i
            < device.queue_evts.len()) implies #[trigger] goes_through(
        plan,
        i,
        step,
    ) by {
        let k = device.step_at(i, step);
        device.lemma_activation_call(mem, interrupt, k);
        assert(queue_step(plan[k]) == Some(QueueStep { index: i, step }));
    }
    assert forall|j: int, k: int|
        #![trigger plan[j], plan[k]]
        0 <= j < k < plan.len() && queue_step(plan[j]) is Some && queue_step(plan[k]) is Some
            && queue_step(plan[j])->0.index == queue_step(plan[k])->0.index implies queue_step(
        plan[j],
    )->0.step < queue_step(plan[k])->0.step by {
        device.lemma_step_at(mem, interrupt, j);
        device.lemma_step_at(mem, interrupt, k);
    }
}

impl DeviceView {
    /// Where in the activation plan a step of a queue is.
    spec fn step_at(self, i: int, step: int) -> int {
        if step == 0 {
            i
        } else if step == 1 {
            self.setup_at() + 1 + i
        } else {
            self.vring_at(i) + step - 2
        }
    }

    proof fn lemma_step_at(self, mem: u64, interrupt: u64, k: int)
        requires
            self.queues.len() <= usize::MAX,
            0 <= k <= self.fence_at(),
        ensures
            queue_step(self.activation_plan(mem, interrupt)[k]) matches Some(queue) ==> {
                &&& 0 <= queue.index < self.queues.len()
                &&& 0 <= queue.step <= 6
                &&& k == self.step_at(queue.index, queue.step)
            },
    {
        self.lemma_activation_call(mem, interrupt, k);
    }
}

/// The memory is handed over exactly once, before the size or anything else of
/// a queue is, and after all queues have been initialized; the features are
/// set exactly once, right after the last queue has been initialized.
pub proof fn law_memory_comes_before_queues(device: DeviceView, mem: u64, interrupt: u64)
    requires
        device.queue_evts.len() == device.queues.len(),
        device.queues.len() <= usize::MAX,
    ensures
        ({
            let plan = device.activation_plan(mem, interrupt);
            let table = Call::Vhost(VhostCall::SetMemTable { mem });
            &&& plan.contains(table)
            &&& forall|j: int, k: int|
                #![trigger plan[j], plan[k]]
                0 <= j < plan.len() && 0 <= k < plan.len() && plan[j] == table ==> {
                    &&& plan[k] == table ==> j == k
                    &&& queue_step(plan[k]) matches Some(queue) ==> (j < k <==> queue.step > 0)
                }
            &&& forall|k: int|
                0 <= k < plan.len() ==> (#[trigger] plan[k] is Vhost && plan[k]->Vhost_0
                    is SetFeatures <==> k == device.queues.len())
        }),
{
    let plan = device.activation_plan(mem, interrupt);
    let table = Call::Vhost(VhostCall::SetMemTable { mem });
    device.lemma_activation_len(mem, interrupt);
    device.lemma_activation_call(mem, interrupt, device.setup_at());
    assert(plan[device.setup_at()] == table);
    assert forall|j: int, k: int|
        #![trigger plan[j], plan[k]]
        0 <= j < plan.len() && 0 <= k < plan.len() && plan[j] == table implies {
        &&& plan[k] == table ==> j == k
        &&& queue_step(plan[k]) matches Some(queue) ==> (j < k <==> queue.step > 0)
    } by {
        device.lemma_activation_call(mem, interrupt, j);
        device.lemma_activation_call(mem, interrupt, k);
        device.lemma_step_at(mem, interrupt, k);
    }
    assert forall|k: int| 0 <= k < plan.len() implies (#[trigger] plan[k] is Vhost
        && plan[k]->Vhost_0 is SetFeatures <==> k == device.queues.len()) by {
        device.lemma_activation_call(mem, interrupt, k);
    }
}

/// How many calls an activation takes: seven for each queue, the features, the
/// memory and the fence, five to load a blob, and five to open the request
/// channel for a window.
pub proof fn law_activation_length(device: DeviceView, mem: u64, interrupt: u64)
    requires
        device.queue_evts.len() == device.queues.len(),
    ensures
        device.activation_plan(mem, interrupt).len() == 7 * device.queues.len() + 3 + (if
        device.backend_state is Some {
            5int
        } else {
            0
        }) + (if device.dax_window is Some {
            5int
        } else {
            0
        }),
{
    device.lemma_activation_len(mem, interrupt);
}

/// The five calls that load a blob stand right behind the setting of the
/// features: a memfd for the state is created, the blob is written to it and
/// it is rewound before the backend gets it, in the stopped phase; then the
/// transfer is checked. The blob is written only there.
pub proof fn law_blob_is_written_rewound_and_loaded(device: DeviceView, mem: u64, interrupt: u64)
    requires
        device.backend_state is Some,
    ensures
        ({
            let plan = device.activation_plan(mem, interrupt);
            let at = device.queues.len() as int;
            &&& plan[at + 1] == Call::Host(
                HostCall::CreateMemfd { name: crate::request::MemfdName::State },
            )
            &&& plan[at + 2] == (Call::WriteMemfd { bytes: device.backend_state->0 })
            &&& plan[at + 3] == Call::Host(HostCall::RewindMemfd)
            &&& plan[at + 4] == Call::Vhost(
                VhostCall::SetDeviceStateFd {
                    direction: crate::request::TransferDirection::Load,
                    phase: crate::request::TransferPhase::Stopped,
                },
            )
            &&& plan[at + 5] == Call::Vhost(VhostCall::CheckDeviceState)
            &&& forall|k: int|
                0 <= k < plan.len() && #[trigger] plan[k] is WriteMemfd ==> k == at + 2
        }),
{
    let plan = device.activation_plan(mem, interrupt);
    let at = device.queues.len() as int;
    device.lemma_activation_len(mem, interrupt);
    device.lemma_activation_call(mem, interrupt, at + 1);
    device.lemma_activation_call(mem, interrupt, at + 2);
    device.lemma_activation_call(mem, interrupt, at + 3);
    device.lemma_activation_call(mem, interrupt, at + 4);
    device.lemma_activation_call(mem, interrupt, at + 5);
    assert forall|k: int| 0 <= k < plan.len() && #[trigger] plan[k] is WriteMemfd implies k == at
        + 2 by {
        device.lemma_activation_call(mem, interrupt, k);
    }
}

/// The five calls that open the request channel stand right behind the loading
/// of the blob, or the features without one: the channel is served with
/// exactly the window, requests are answered exactly if the backend agreed to
/// acknowledgements (bit 3), the eventfd that stops the thread does not block,
/// and the thread runs before the backend gets its end.
pub proof fn law_request_channel_serves_the_window(device: DeviceView, mem: u64, interrupt: u64)
    requires
        device.dax_window is Some,
    ensures
        ({
            let plan = device.activation_plan(mem, interrupt);
            let at = device.queues.len() + 1 + (if device.backend_state is Some {
                5int
            } else {
                0
            });
            &&& plan[at] == Call::Host(
                HostCall::NewReqHandler {
                    window_host_addr: device.dax_window->0.host_addr,
                    window_size: device.dax_window->0.size,
                },
            )
            &&& plan[at + 1] == Call::Host(
                HostCall::SetReplyAckFlag { enable: device.vu_acked_protocol_features & 0x8 != 0 },
            )
            &&& plan[at + 2] == Call::Host(HostCall::CreateEventFd { flags: 0x800 })
            &&& plan[at + 3] == Call::Host(HostCall::SpawnReqThread)
            &&& plan[at + 4] == Call::Vhost(VhostCall::SetBackendRequestFd)
        }),
{
    let at = device.handler_at();
    device.lemma_activation_call(mem, interrupt, at);
    device.lemma_activation_call(mem, interrupt, at + 1);
    device.lemma_activation_call(mem, interrupt, at + 2);
    device.lemma_activation_call(mem, interrupt, at + 3);
    device.lemma_activation_call(mem, interrupt, at + 4);
}

/// The error of an activation names the call that failed: one about a queue's
/// place in memory, one of the vhost-user protocol, or one of the fs device,
/// for the state transfer and the request channel.
pub proof fn law_activation_error_names_call(call: Call, fault: Fault)
    ensures
        ({
            let error = crate::plan::activate_error(call, fault);
            match call {
                Call::Vm(VmCall::InitializeQueue { .. }) => error
                    == ActivateError::QueueMemoryError(fault),
                Call::Vhost(VhostCall::SetFeatures { .. }) => error == ActivateError::VhostUser(
                    VhostUserError::VhostUserSetFeatures(fault),
                ),
                Call::Host(HostCall::CreateMemfd { .. }) => error == ActivateError::VhostUserFs(
                    VhostUserFsError::Memfd(fault),
                ),
                Call::WriteMemfd { .. } | Call::Host(HostCall::RewindMemfd) => error
                    == ActivateError::VhostUserFs(VhostUserFsError::DeviceStateTransfer(fault)),
                Call::Vhost(VhostCall::SetDeviceStateFd { .. }) => error
                    == ActivateError::VhostUserFs(
                    VhostUserFsError::VhostUser(VhostUserError::VhostUserSetDeviceStateFd(fault)),
                ),
                Call::Vhost(VhostCall::CheckDeviceState) => error == ActivateError::VhostUserFs(
                    VhostUserFsError::VhostUser(VhostUserError::VhostUserCheckDeviceState(fault)),
                ),
                Call::Host(HostCall::NewReqHandler { .. }) => error == ActivateError::VhostUserFs(
                    VhostUserFsError::BackendReqVhost(fault),
                ),
                Call::Host(HostCall::CreateEventFd { .. }) => error == ActivateError::VhostUserFs(
                    VhostUserFsError::EventFd(fault),
                ),
                Call::Vhost(VhostCall::SetBackendRequestFd) => error == ActivateError::VhostUserFs(
                    VhostUserFsError::Vhost(fault),
                ),
                Call::Vhost(VhostCall::SetMemTable { .. }) => error == ActivateError::VhostUser(
                    VhostUserError::VhostUserSetMemTable(fault),
                ),
                Call::Vhost(VhostCall::SetVringNum { .. }) => error == ActivateError::VhostUser(
                    VhostUserError::VhostUserSetVringNum(fault),
                ),
                Call::Vhost(VhostCall::SetVringAddr { .. }) => error == ActivateError::VhostUser(
                    VhostUserError::VhostUserSetVringAddr(fault),
                ),
                Call::Vhost(VhostCall::SetVringBase { .. }) => error == ActivateError::VhostUser(
                    VhostUserError::VhostUserSetVringBase(fault),
                ),
                Call::Vhost(VhostCall::SetVringCall { .. }) => error == ActivateError::VhostUser(
                    VhostUserError::VhostUserSetVringCall(fault),
                ),
                Call::Vhost(VhostCall::SetVringKick { .. }) => error == ActivateError::VhostUser(
                    VhostUserError::VhostUserSetVringKick(fault),
                ),
                Call::Vhost(VhostCall::SetVringEnable { .. }) => error == ActivateError::VhostUser(
                    VhostUserError::VhostUserSetVringEnable(fault),
                ),
                Call::Vhost(VhostCall::GetProtocolFeatures) => error == ActivateError::VhostUser(
                    VhostUserError::VhostUserGetProtocolFeatures(fault),
                ),
                _ => true,
            }
        }),
{
}

/// In an activation only the answering of requests and the starting of the
/// thread cannot fail.
pub proof fn law_activation_calls_that_cannot_fail(
    device: DeviceView,
    mem: u64,
    interrupt: u64,
    k: int,
)
    requires
        0 <= k < device.activation_plan(mem, interrupt).len(),
    ensures
        ({
            let call = device.activation_plan(mem, interrupt)[k];
            call.cannot_fail() <==> call is Host && (call->Host_0 is SetReplyAckFlag
                || call->Host_0 is SpawnReqThread)
        }),
{
    device.lemma_activation_len(mem, interrupt);
    device.lemma_activation_call(mem, interrupt, k);
}

/// A successful activation changes nothing of a device but this: it is active
/// with the given memory and interrupt, its blob is consumed, and with a window
/// it keeps the eventfd and the thread of the request channel, as answered.
pub proof fn law_activated_device(
    device: DeviceView,
    mem: u64,
    interrupt: u64,
    replies: Seq<Result<u64, Fault>>,
)
    requires
        !device.is_activated(),
        ActivationView::start(device, mem, interrupt).passed_by(replies),
        replies.len() == device.activation_plan(mem, interrupt).len(),
    ensures
        ({
            let plan = device.activation_plan(mem, interrupt);
            let after = ActivationView::start(device, mem, interrupt).run(replies).device;
            &&& after == (DeviceView {
                device_state: DeviceState::Activated(ActiveState { mem, interrupt }),
                backend_state: None,
                backend_req_stop: after.backend_req_stop,
                backend_req_thread: after.backend_req_thread,
                ..device
            })
            &&& device.dax_window is None ==> after.backend_req_stop == device.backend_req_stop
                && after.backend_req_thread == device.backend_req_thread
            &&& forall|k: int|
                #![trigger plan[k]]
                0 <= k < plan.len() && plan[k] is Host ==> {
                    &&& plan[k]->Host_0 is CreateEventFd ==> after.backend_req_stop == Some(
                        replies[k]->Ok_0,
                    )
                    &&& plan[k]->Host_0 is SpawnReqThread ==> after.backend_req_thread == Some(
                        replies[k]->Ok_0,
                    )
                }
        }),
{
    let plan = device.activation_plan(mem, interrupt);
    device.lemma_activation_len(mem, interrupt);
    law_activation_follows_plan(device, mem, interrupt, replies);
    assert forall|k: int|
        #![trigger plan[k]]
        0 <= k < plan.len() && plan[k] is Host && (plan[k]->Host_0 is CreateEventFd
            || plan[k]->Host_0 is SpawnReqThread) implies device.dax_window is Some && k
        == device.handler_at() + (if plan[k]->Host_0 is CreateEventFd {
        2int
    } else {
        3
    }) by {
        device.lemma_calls_that_give(mem, interrupt, k);
    }
}

/// A failed activation changes nothing of a device but this: the failure is
/// counted, by one and only if it was not about a queue, the blob is consumed
/// if the features were set, and what the request channel already has, the
/// eventfd and the thread, is kept, as answered, so that it can be stopped.
pub proof fn law_device_after_failed_activation(
    device: DeviceView,
    mem: u64,
    interrupt: u64,
    replies: Seq<Result<u64, Fault>>,
    fault: Fault,
)
    requires
        !device.is_activated(),
        ActivationView::start(device, mem, interrupt).passed_by(replies),
        replies.len() < device.activation_plan(mem, interrupt).len(),
        !device.activation_plan(mem, interrupt)[replies.len() as int].cannot_fail(),
    ensures
        ({
            let plan = device.activation_plan(mem, interrupt);
            let end = ActivationView::start(device, mem, interrupt).run(replies.push(Err(fault)));
            let after = end.device;
            let fails = device.metrics.activate_fails;
            &&& device == (DeviceView {
                metrics: device.metrics,
                backend_state: device.backend_state,
                backend_req_stop: device.backend_req_stop,
                backend_req_thread: device.backend_req_thread,
                ..after
            })
            &&& device.metrics == (VhostUserDeviceMetrics {
                activate_fails: fails,
                ..after.metrics
            })
            &&& replies.len() < device.queues.len() ==> after.metrics.activate_fails == fails
            &&& replies.len() >= device.queues.len() && fails < u64::MAX
                ==> after.metrics.activate_fails == fails + 1
            &&& replies.len() <= device.queues.len() ==> after.backend_state
                == device.backend_state
            &&& replies.len() > device.queues.len() ==> after.backend_state is None
            &&& device.dax_window is None ==> {
                &&& after.backend_req_stop == device.backend_req_stop
                &&& after.backend_req_thread == device.backend_req_thread
            }
            &&& forall|k: int|
                #![trigger plan[k]]
                0 <= k < replies.len() && plan[k] is Host ==> {
                    &&& plan[k]->Host_0 is CreateEventFd ==> after.backend_req_stop == Some(
                        replies[k]->Ok_0,
                    )
                    &&& plan[k]->Host_0 is SpawnReqThread ==> after.backend_req_thread == Some(
                        replies[k]->Ok_0,
                    )
                }
        }),
{
    let plan = device.activation_plan(mem, interrupt);
    let start = ActivationView::start(device, mem, interrupt);
    device.lemma_activation_len(mem, interrupt);
    law_activation_follows_plan(device, mem, interrupt, replies);
    start.lemma_run_push(replies, Err(fault));
    device.lemma_activation_call(mem, interrupt, replies.len() as int);
    assert forall|k: int|
        #![trigger plan[k]]
        0 <= k < plan.len() && plan[k] is Host && (plan[k]->Host_0 is CreateEventFd
            || plan[k]->Host_0 is SpawnReqThread) implies device.dax_window is Some && k
        == device.handler_at() + (if plan[k]->Host_0 is CreateEventFd {
        2int
    } else {
        3
    }) by {
        device.lemma_calls_that_give(mem, interrupt, k);
    }
}

/// What is told of an activation is what it holds.
pub proof fn law_view_is_the_activation(activation: Activation)
    ensures
        activation@.device == activation.device@,
        activation@.mem == activation.mem,
        activation@.interrupt == activation.interrupt,
        activation@.done == activation.done,
        activation@.failure == activation.failure,
        activation@.plan.len() == activation.plan@.len(),
        forall|i: int|
            0 <= i < activation.plan@.len() ==> #[trigger] activation@.plan[i]
                == activation.plan@[i]@,
{
}

} // verus!
