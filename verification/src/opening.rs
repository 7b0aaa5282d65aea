//! Creating a device: connecting to the backend, negotiating features and
//! opening the eventfds.

use vstd::prelude::*;
use vstd::std_specs::convert::FromSpec;

use crate::config::{FsDeviceConfig, VhostUserFsConfig};
use crate::config_space::build_config_space;
use crate::device::{
    DeviceState, DeviceView, VhostUserDeviceMetrics, VhostUserFsImpl, VhostUserHandle,
};
use crate::error::{Fault, VhostUserError, VhostUserFsError};
use crate::outside::{
    backend_req, device_state, efd_nonblock, need_reply, protocol_features, reply_ack, shmem,
    BACKEND_REQ, DEVICE_STATE, EFD_NONBLOCK, NEED_REPLY, PROTOCOL_FEATURES, REPLY_ACK, SHMEM,
};
use crate::queue::{Queue, QUEUE_SIZE};
use crate::request::{Call, HostCall, Request, VhostCall};

verus! {

/// Virtio feature bit: the device complies with virtio 1.
pub const VIRTIO_F_VERSION_1: u64 = 32;

/// Virtio feature bit: notifications are suppressed by event index.
pub const VIRTIO_RING_F_EVENT_IDX: u64 = 29;

/// The virtio features that the frontend supports.
pub open spec fn available_features_spec() -> u64 {
    (1u64 << VIRTIO_F_VERSION_1) | (1u64 << VIRTIO_RING_F_EVENT_IDX) | PROTOCOL_FEATURES
}

/// The virtio features that the frontend supports.
pub fn available_features() -> (features: u64)
    ensures
        features == available_features_spec(),
{
    // The last bit is specific to vhost-user: it tells that the frontend is
    // able to negotiate protocol features.
    (1u64 << VIRTIO_F_VERSION_1) | (1u64 << VIRTIO_RING_F_EVENT_IDX) | protocol_features()
}

/// Protocol features requested from the backend: DEVICE_STATE always, and
/// what a DAX window needs if there is to be one.
pub open spec fn requested_protocol_features_spec(dax_enabled: bool) -> u64 {
    if dax_enabled {
        DEVICE_STATE | (BACKEND_REQ | SHMEM | REPLY_ACK)
    } else {
        DEVICE_STATE
    }
}

/// Protocol features requested from the backend. DEVICE_STATE enables the
/// backend device-state transfer that snapshotting relies on; if the
/// backend does not advertise it the device works normally, but snapshots
/// are refused at save time. If a DAX window is configured, the backend must
/// support BACKEND_REQ and SHMEM so it can map file pages into the window,
/// and REPLY_ACK so that it waits for a mapping before the guest uses it.
pub fn requested_protocol_features(dax_enabled: bool) -> (features: u64)
    ensures
        features == requested_protocol_features_spec(dax_enabled),
{
    let mut features: u64 = device_state();
    if dax_enabled {
        features = features | (backend_req() | shmem() | reply_ack());
    }
    features
}

/// How far the creation of a device has come: the call that is next.
#[derive(Debug, PartialEq, Eq)]
pub enum OpeningPhase {
    Connect,
    SetOwner,
    GetFeatures,
    GetProtocolFeatures,
    SetProtocolFeatures,
    SetHdrFlags,
    ActivateEvt,
    QueueEvts,
    Done,
    Failed(VhostUserFsError),
}

/// The creation of a device.
#[derive(Debug, PartialEq, Eq)]
pub struct Opening {
    pub config: VhostUserFsConfig,
    pub phase: OpeningPhase,
    /// The virtio features negotiated with the backend.
    pub features: u64,
    /// The protocol features negotiated with the backend.
    pub protocol_features: u64,
    pub activate_evt: u64,
    pub queue_evts: Vec<u64>,
}

/// The creation of a device as a mathematical value.
pub struct OpeningView {
    pub config: VhostUserFsConfig,
    pub phase: OpeningPhase,
    pub features: u64,
    pub protocol_features: u64,
    pub activate_evt: u64,
    pub queue_evts: Seq<u64>,
}

impl View for Opening {
    type V = OpeningView;

    open spec fn view(&self) -> OpeningView {
        OpeningView {
            config: self.config,
            phase: self.phase,
            features: self.features,
            protocol_features: self.protocol_features,
            activate_evt: self.activate_evt,
            queue_evts: self.queue_evts@,
        }
    }
}

/// The error that a fault in the given phase amounts to.
pub open spec fn opening_error(phase: OpeningPhase, fault: Fault) -> VhostUserFsError {
    match phase {
        OpeningPhase::Connect => VhostUserFsError::VhostUser(VhostUserError::Connect(fault)),
        OpeningPhase::SetOwner => VhostUserFsError::VhostUser(
            VhostUserError::VhostUserSetOwner(fault),
        ),
        OpeningPhase::GetFeatures => VhostUserFsError::VhostUser(
            VhostUserError::VhostUserGetFeatures(fault),
        ),
        OpeningPhase::GetProtocolFeatures => VhostUserFsError::VhostUser(
            VhostUserError::VhostUserGetProtocolFeatures(fault),
        ),
        OpeningPhase::SetProtocolFeatures => VhostUserFsError::VhostUser(
            VhostUserError::VhostUserSetProtocolFeatures(fault),
        ),
        _ => VhostUserFsError::EventFd(fault),
    }
}

impl OpeningView {
    /// The start: nothing has been called.
    pub open spec fn start(config: VhostUserFsConfig) -> OpeningView {
        OpeningView {
            config,
            phase: OpeningPhase::Connect,
            features: 0,
            protocol_features: 0,
            activate_evt: 0,
            queue_evts: Seq::empty(),
        }
    }

    pub open spec fn num_queues(self) -> nat {
        crate::queue::queue_count(self.config.num_request_queues)
    }

    pub open spec fn requested(self) -> u64 {
        requested_protocol_features_spec(self.config.dax_window_size_mib is Some)
    }

    /// The call that is next, if any.
    pub open spec fn pending(self) -> Option<Call> {
        match self.phase {
            OpeningPhase::Connect => Some(
                Call::Connect {
                    socket: self.config.socket@,
                    num_queues: self.num_queues() as u64,
                },
            ),
            OpeningPhase::SetOwner => Some(Call::Vhost(VhostCall::SetOwner)),
            OpeningPhase::GetFeatures => Some(Call::Vhost(VhostCall::GetFeatures)),
            OpeningPhase::GetProtocolFeatures => Some(Call::Vhost(VhostCall::GetProtocolFeatures)),
            OpeningPhase::SetProtocolFeatures => Some(
                Call::Vhost(VhostCall::SetProtocolFeatures { features: self.protocol_features }),
            ),
            OpeningPhase::SetHdrFlags => Some(
                Call::Vhost(VhostCall::SetHdrFlags { flags: NEED_REPLY }),
            ),
            OpeningPhase::ActivateEvt | OpeningPhase::QueueEvts => Some(
                Call::Host(HostCall::CreateEventFd { flags: EFD_NONBLOCK }),
            ),
            OpeningPhase::Done | OpeningPhase::Failed(_) => None,
        }
    }

    /// What the answer to the pending call makes of it. Features that both
    /// sides have are negotiated; protocol features only where the backend
    /// has the virtio feature for them.
    pub open spec fn step(self, reply: Result<u64, Fault>) -> OpeningView {
        match (self.phase, reply) {
            (OpeningPhase::SetHdrFlags, _) => OpeningView {
                phase: OpeningPhase::ActivateEvt,
                ..self
            },
            (phase, Err(fault)) => OpeningView {
                phase: OpeningPhase::Failed(opening_error(phase, fault)),
                ..self
            },
            (OpeningPhase::Connect, Ok(_)) => OpeningView {
                phase: OpeningPhase::SetOwner,
                ..self
            },
            (OpeningPhase::SetOwner, Ok(_)) => OpeningView {
                phase: OpeningPhase::GetFeatures,
                ..self
            },
            (OpeningPhase::GetFeatures, Ok(backend)) => {
                let features = available_features_spec() & backend;
                OpeningView {
                    features,
                    phase: if features & PROTOCOL_FEATURES != 0 {
                        OpeningPhase::GetProtocolFeatures
                    } else {
                        OpeningPhase::ActivateEvt
                    },
                    ..self
                }
            },
            (OpeningPhase::GetProtocolFeatures, Ok(backend)) => OpeningView {
                protocol_features: self.requested() & backend,
                phase: OpeningPhase::SetProtocolFeatures,
                ..self
            },
            (OpeningPhase::SetProtocolFeatures, Ok(_)) => OpeningView {
                phase: if self.protocol_features & REPLY_ACK != 0 {
                    OpeningPhase::SetHdrFlags
                } else {
                    OpeningPhase::ActivateEvt
                },
                ..self
            },
            (OpeningPhase::ActivateEvt, Ok(evt)) => OpeningView {
                activate_evt: evt,
                phase: OpeningPhase::QueueEvts,
                ..self
            },
            (OpeningPhase::QueueEvts, Ok(evt)) => OpeningView {
                queue_evts: self.queue_evts.push(evt),
                phase: if self.queue_evts.len() + 1 < self.num_queues() {
                    OpeningPhase::QueueEvts
                } else {
                    OpeningPhase::Done
                },
                ..self
            },
            (_, Ok(_)) => self,
        }
    }

    /// At most so many calls are still to be made.
    pub open spec fn remaining(self) -> nat {
        let n = self.num_queues();
        match self.phase {
            OpeningPhase::Connect => n + 7,
            OpeningPhase::SetOwner => n + 6,
            OpeningPhase::GetFeatures => n + 5,
            OpeningPhase::GetProtocolFeatures => n + 4,
            OpeningPhase::SetProtocolFeatures => n + 3,
            OpeningPhase::SetHdrFlags => n + 2,
            OpeningPhase::ActivateEvt => n + 1,
            OpeningPhase::QueueEvts => (n - self.queue_evts.len()) as nat,
            OpeningPhase::Done | OpeningPhase::Failed(_) => 0,
        }
    }

    /// What holds between calls: as many eventfds as are due, and no feature
    /// that was not offered.
    pub open spec fn wf(self) -> bool {
        &&& match self.phase {
            OpeningPhase::QueueEvts => self.queue_evts.len() < self.num_queues(),
            OpeningPhase::Done => self.queue_evts.len() == self.num_queues(),
            OpeningPhase::Failed(_) => true,
            _ => self.queue_evts.len() == 0,
        }
        &&& self.features & !available_features_spec() == 0
        &&& self.protocol_features & !self.requested() == 0
    }

    /// The device that a completed creation gives.
    pub open spec fn device(self) -> DeviceView {
        DeviceView {
            // We negotiated features with backend. Now these features
            // are available for guest driver to choose from.
            avail_features: self.features,
            acked_features: self.features & PROTOCOL_FEATURES,
            config_space: crate::config_space::config_space(
                vstd::utf8::encode_utf8(self.config.tag@),
                self.config.num_request_queues,
            ),
            activate_evt: self.activate_evt,
            queues: Seq::new(self.num_queues(), |i: int| Queue::unconfigured(QUEUE_SIZE)),
            queue_evts: self.queue_evts,
            device_state: DeviceState::Inactive,
            id: self.config.fs_id@,
            tag: self.config.tag@,
            num_request_queues: self.config.num_request_queues,
            socket_path: self.config.socket@,
            vu_acked_protocol_features: self.protocol_features,
            backend_state: None,
            metrics: VhostUserDeviceMetrics {
                activate_fails: 0,
                init_time_us: 0,
                activate_time_us: 0,
            },
            dax_window_size_mib: self.config.dax_window_size_mib,
            dax_window: None,
            shmem_region: None,
            backend_req_thread: None,
            backend_req_stop: None,
        }
    }

    /// What becomes of the creation when its calls are answered in turn.
    pub open spec fn run(self, replies: Seq<Result<u64, Fault>>) -> OpeningView
        decreases replies.len(),
    {
        if replies.len() == 0 || self.pending() is None {
            self
        } else {
            self.step(replies[0]).run(replies.drop_first())
        }
    }

    /// The calls that are made while these answers are given in turn.
    pub open spec fn trace(self, replies: Seq<Result<u64, Fault>>) -> Seq<Call>
        decreases replies.len(),
    {
        if replies.len() == 0 {
            Seq::empty()
        } else {
            match self.pending() {
                Some(call) => seq![call] + self.step(replies[0]).trace(replies.drop_first()),
                None => Seq::empty(),
            }
        }
    }

    /// Whether these answers let the creation succeed, all of them needed.
    pub open spec fn completed_by(self, replies: Seq<Result<u64, Fault>>) -> bool
        decreases replies.len(),
    {
        if replies.len() == 0 {
            self.phase == OpeningPhase::Done
        } else {
            &&& self.pending() is Some
            &&& self.step(replies[0]).completed_by(replies.drop_first())
        }
    }
}

impl VhostUserFsImpl {
    /// Starts to create a device.
    pub fn new(config: VhostUserFsConfig) -> (opening: Opening)
        ensures
            opening@ == OpeningView::start(config),
            opening@.wf(),
    {
        let opening = Opening {
            config,
            phase: OpeningPhase::Connect,
            features: 0,
            protocol_features: 0,
            activate_evt: 0,
            queue_evts: Vec::new(),
        };
        proof {
            lemma_start_wf(config);
        }
        opening
    }
}

impl Opening {
    /// The call that is next, if any.
    pub fn pending(&self) -> (request: Option<Request>)
        ensures
            match request {
                Some(request) => self@.pending() == Some(request@),
                None => self@.pending() is None,
            },
    {
        match &self.phase {
            OpeningPhase::Connect => Some(
                Request::Connect {
                    socket: self.config.socket.clone(),
                    num_queues: self.config.num_queues(),
                },
            ),
            OpeningPhase::SetOwner => Some(Request::Vhost(VhostCall::SetOwner)),
            OpeningPhase::GetFeatures => Some(Request::Vhost(VhostCall::GetFeatures)),
            OpeningPhase::GetProtocolFeatures => Some(
                Request::Vhost(VhostCall::GetProtocolFeatures),
            ),
            OpeningPhase::SetProtocolFeatures => Some(
                Request::Vhost(VhostCall::SetProtocolFeatures { features: self.protocol_features }),
            ),
            OpeningPhase::SetHdrFlags => Some(
                Request::Vhost(VhostCall::SetHdrFlags { flags: need_reply() }),
            ),
            OpeningPhase::ActivateEvt | OpeningPhase::QueueEvts => Some(
                Request::Host(HostCall::CreateEventFd { flags: efd_nonblock() }),
            ),
            OpeningPhase::Done | OpeningPhase::Failed(_) => None,
        }
    }

    /// Takes the answer to the pending call.
    pub fn complete(self, reply: Result<u64, Fault>) -> (next: Opening)
        requires
            self@.wf(),
            self@.pending() is Some,
        ensures
            next@ == self@.step(reply),
            next@.wf(),
            next@.remaining() < self@.remaining(),
    {
        let ghost before = self@;
        let mut next = self;
        let value: u64 = match reply {
            Ok(value) => value,
            Err(fault) => {
                let phase = match next.phase {
                    OpeningPhase::SetHdrFlags => OpeningPhase::ActivateEvt,
                    phase => OpeningPhase::Failed(fault_in_phase(phase, fault)),
                };
                next.phase = phase;
                return next;
            },
        };
        match next.phase {
            OpeningPhase::Connect => {
                next.phase = OpeningPhase::SetOwner;
            },
            OpeningPhase::SetOwner => {
                next.phase = OpeningPhase::GetFeatures;
            },
            OpeningPhase::GetFeatures => {
                let available: u64 = available_features();
                next.features = available & value;
                next.phase = if next.features & protocol_features() != 0 {
                    OpeningPhase::GetProtocolFeatures
                } else {
                    OpeningPhase::ActivateEvt
                };
                proof {
                    lemma_masked(available, value);
                }
            },
            OpeningPhase::GetProtocolFeatures => {
                let requested: u64 = requested_protocol_features(
                    next.config.dax_window_size_mib.is_some(),
                );
                next.protocol_features = requested & value;
                next.phase = OpeningPhase::SetProtocolFeatures;
                proof {
                    lemma_masked(requested, value);
                }
            },
            OpeningPhase::SetProtocolFeatures => {
                next.phase = if next.protocol_features & reply_ack() != 0 {
                    OpeningPhase::SetHdrFlags
                } else {
                    OpeningPhase::ActivateEvt
                };
            },
            OpeningPhase::SetHdrFlags => {
                next.phase = OpeningPhase::ActivateEvt;
            },
            OpeningPhase::ActivateEvt => {
                next.activate_evt = value;
                next.phase = OpeningPhase::QueueEvts;
            },
            OpeningPhase::QueueEvts => {
                next.queue_evts.push(value);
                if next.queue_evts.len() as u64 >= next.config.num_queues() {
                    next.phase = OpeningPhase::Done;
                }
            },
            OpeningPhase::Done | OpeningPhase::Failed(_) => {},
        }
        next
    }

    /// The outcome, once no call is pending.
    pub fn finish(self) -> (result: Result<VhostUserFsImpl, VhostUserFsError>)
        requires
            self@.wf(),
            self@.pending() is None,
        ensures
            match self@.phase {
                OpeningPhase::Failed(error) => result == Err::<VhostUserFsImpl, _>(error),
                _ => result matches Ok(device) && device@ == self@.device() && device@.wf(),
            },
    {
        let ghost view = self@;
        match self.phase {
            OpeningPhase::Failed(error) => {
                return Err(error);
            },
            _ => {},
        }
        let config_space = build_config_space(
            self.config.tag.as_str(),
            self.config.num_request_queues,
        );
        let num_queues: usize = self.config.num_queues() as usize;
        let mut queues: Vec<Queue> = Vec::new();
        while queues.len() < num_queues
            invariant
                queues@.len() <= num_queues,
                queues@ == Seq::new(queues@.len(), |i: int| Queue::unconfigured(QUEUE_SIZE)),
            decreases num_queues - queues@.len(),
        {
            queues.push(Queue::new(QUEUE_SIZE));
        }
        let device = VhostUserFsImpl {
            avail_features: self.features,
            acked_features: self.features & protocol_features(),
            config_space,
            activate_evt: self.activate_evt,
            queues,
            queue_evts: self.queue_evts,
            device_state: DeviceState::Inactive,
            id: self.config.fs_id,
            tag: self.config.tag,
            num_request_queues: self.config.num_request_queues,
            vu_handle: VhostUserHandle { socket_path: self.config.socket },
            vu_acked_protocol_features: self.protocol_features,
            backend_state: None,
            metrics: VhostUserDeviceMetrics {
                activate_fails: 0,
                init_time_us: 0,
                activate_time_us: 0,
            },
            dax_window_size_mib: self.config.dax_window_size_mib,
            dax_window: None,
            shmem_region: None,
            backend_req_thread: None,
            backend_req_stop: None,
        };
        assert(device@ == view.device());
        Ok(device)
    }
}

/// The error that a fault in the given phase amounts to.
fn fault_in_phase(phase: OpeningPhase, fault: Fault) -> (error: VhostUserFsError)
    ensures
        error == opening_error(phase, fault),
{
    match phase {
        OpeningPhase::Connect => VhostUserFsError::VhostUser(VhostUserError::Connect(fault)),
        OpeningPhase::SetOwner => VhostUserFsError::VhostUser(
            VhostUserError::VhostUserSetOwner(fault),
        ),
        OpeningPhase::GetFeatures => VhostUserFsError::VhostUser(
            VhostUserError::VhostUserGetFeatures(fault),
        ),
        OpeningPhase::GetProtocolFeatures => VhostUserFsError::VhostUser(
            VhostUserError::VhostUserGetProtocolFeatures(fault),
        ),
        OpeningPhase::SetProtocolFeatures => VhostUserFsError::VhostUser(
            VhostUserError::VhostUserSetProtocolFeatures(fault),
        ),
        _ => VhostUserFsError::EventFd(fault),
    }
}

/// The answers by which a backend with the given features lets a creation
/// succeed, with the given eventfds.
pub open spec fn success_replies(
    config: VhostUserFsConfig,
    backend_features: u64,
    backend_protocol_features: u64,
    activate_evt: u64,
    queue_evts: Seq<u64>,
) -> Seq<Result<u64, Fault>> {
    let features = available_features_spec() & backend_features;
    let protocol = requested_protocol_features_spec(config.dax_window_size_mib is Some)
        & backend_protocol_features;
    let negotiation: Seq<Result<u64, Fault>> = if features & PROTOCOL_FEATURES == 0 {
        seq![]
    } else if protocol & REPLY_ACK == 0 {
        seq![Ok(backend_protocol_features), Ok(0)]
    } else {
        seq![Ok(backend_protocol_features), Ok(0), Ok(0)]
    };
    let connected: Seq<Result<u64, Fault>> = seq![Ok(0), Ok(0), Ok(backend_features)];
    let evts: Seq<Result<u64, Fault>> = seq![Ok(activate_evt)] + Seq::new(
        queue_evts.len(),
        |i: int| Ok(queue_evts[i]),
    );
    connected + (negotiation + evts)
}

/// Where every call succeeds, the device offers the guest exactly the features
/// that both sides have, acknowledges only the protocol bit of them itself,
/// and has exactly the requested protocol features that the backend has, none
/// if the backend does not negotiate them.
#[verifier::rlimit(60)]
#[verifier::spinoff_prover]
pub proof fn law_opening_negotiates(
    config: VhostUserFsConfig,
    backend_features: u64,
    backend_protocol_features: u64,
    activate_evt: u64,
    queue_evts: Seq<u64>,
)
    requires
        queue_evts.len() == crate::queue::queue_count(config.num_request_queues),
    ensures
        ({
            let end = OpeningView::start(config).run(
                success_replies(
                    config,
                    backend_features,
                    backend_protocol_features,
                    activate_evt,
                    queue_evts,
                ),
            );
            let features = available_features_spec() & backend_features;
            &&& OpeningView::start(config).completed_by(
                success_replies(
                    config,
                    backend_features,
                    backend_protocol_features,
                    activate_evt,
                    queue_evts,
                ),
            )
            &&& end.phase == OpeningPhase::Done
            &&& end.wf()
            &&& end.config == config
            &&& end.activate_evt == activate_evt
            &&& end.queue_evts == queue_evts
            &&& end.device().avail_features == features
            &&& end.device().acked_features == features & PROTOCOL_FEATURES
            &&& end.device().vu_acked_protocol_features == if features & PROTOCOL_FEATURES != 0 {
                requested_protocol_features_spec(config.dax_window_size_mib is Some)
                    & backend_protocol_features
            } else {
                0
            }
        }),
{
    let start = OpeningView::start(config);
    let features = available_features_spec() & backend_features;
    let protocol = start.requested() & backend_protocol_features;
    let replies = success_replies(
        config,
        backend_features,
        backend_protocol_features,
        activate_evt,
        queue_evts,
    );
    let evts: Seq<Result<u64, Fault>> = Seq::new(
        queue_evts.len(),
        |i: int| Ok::<u64, Fault>(queue_evts[i]),
    );
    let connected = start.step(Ok(0)).step(Ok(0)).step(Ok(backend_features));
    start.lemma_run_first(replies);
    start.step(Ok(0)).lemma_run_first(replies.drop_first());
    start.step(Ok(0)).step(Ok(0)).lemma_run_first(replies.drop_first().drop_first());
    let rest = replies.drop_first().drop_first().drop_first();
    let ready = if features & PROTOCOL_FEATURES == 0 {
        assert(rest =~= seq![Ok::<u64, Fault>(activate_evt)] + evts);
        connected
    } else {
        let asked = connected.step(Ok(backend_protocol_features));
        connected.lemma_run_first(rest);
        asked.lemma_run_first(rest.drop_first());
        if protocol & REPLY_ACK == 0 {
            assert(rest.drop_first().drop_first() =~= seq![Ok::<u64, Fault>(activate_evt)] + evts);
            asked.step(Ok(0))
        } else {
            asked.step(Ok(0)).lemma_run_first(rest.drop_first().drop_first());
            assert(rest.drop_first().drop_first().drop_first() =~= seq![
                Ok::<u64, Fault>(activate_evt),
            ] + evts);
            asked.step(Ok(0)).step(Ok(0))
        }
    };
    assert(ready.phase == OpeningPhase::ActivateEvt);
    let last = seq![Ok::<u64, Fault>(activate_evt)] + evts;
    ready.lemma_run_first(last);
    assert(last.drop_first() =~= evts);
    ready.step(Ok(activate_evt)).lemma_run_evts(queue_evts);
    assert(ready.queue_evts + queue_evts =~= queue_evts);
    lemma_no_feature(start.requested());
    lemma_masked(available_features_spec(), backend_features);
    lemma_masked(start.requested(), backend_protocol_features);
}

/// The first call that fails ends the creation with its error, and no further
/// call follows, whatever else the host has to say. (The setting of header
/// flags cannot fail.)
pub proof fn law_opening_fails(
    config: VhostUserFsConfig,
    replies: Seq<Result<u64, Fault>>,
    fault: Fault,
    more: Seq<Result<u64, Fault>>,
)
    requires
        OpeningView::start(config).run(replies).pending() is Some,
        OpeningView::start(config).run(replies).phase != OpeningPhase::SetHdrFlags,
    ensures
        ({
            let before = OpeningView::start(config).run(replies);
            let end = OpeningView::start(config).run(replies + seq![Err(fault)] + more);
            &&& end.phase == OpeningPhase::Failed(opening_error(before.phase, fault))
            &&& end.pending() is None
            &&& end.config == config
        }),
{
    let start = OpeningView::start(config);
    let failed: Seq<Result<u64, Fault>> = seq![Err(fault)];
    start.lemma_run_append(replies, failed + more);
    assert(replies + failed + more =~= replies + (failed + more));
    let before = start.run(replies);
    before.lemma_run_first(failed + more);
    start.lemma_run_keeps_config(replies);
}

/// A creation fails only where a call failed.
pub proof fn law_opening_fails_only_by_fault(
    config: VhostUserFsConfig,
    replies: Seq<Result<u64, Fault>>,
)
    requires
        forall|i: int| 0 <= i < replies.len() ==> #[trigger] replies[i] is Ok,
    ensures
        !(OpeningView::start(config).run(replies).phase is Failed),
{
    OpeningView::start(config).lemma_run_without_fault(replies);
}

/// The configuration that a device reports is the one that it was created
/// from, once defaults are filled in.
pub proof fn law_config_round_trip(opening: OpeningView, reported: FsDeviceConfig)
    requires
        opening.device().described_by(reported),
    ensures
        ({
            let config = VhostUserFsConfig::from_spec(&reported);
            &&& config.fs_id@ == opening.config.fs_id@
            &&& config.socket@ == opening.config.socket@
            &&& config.tag@ == opening.config.tag@
            &&& config.num_request_queues == opening.config.num_request_queues
            &&& config.dax_window_size_mib == opening.config.dax_window_size_mib
        }),
{
}

impl OpeningView {
    /// Every answer leaves the creation as it has to be.
    pub(crate) proof fn lemma_step_wf(self, reply: Result<u64, Fault>)
        requires
            self.wf(),
            self.pending() is Some,
        ensures
            self.step(reply).wf(),
            self.step(reply).phase == OpeningPhase::Done ==> self.step(reply).device().wf(),
    {
        if let Ok(backend) = reply {
            lemma_masked(available_features_spec(), backend);
            lemma_masked(self.requested(), backend);
        }
    }

    proof fn lemma_run_first(self, replies: Seq<Result<u64, Fault>>)
        requires
            replies.len() > 0,
            self.pending() is Some,
        ensures
            self.run(replies) == self.step(replies[0]).run(replies.drop_first()),
            self.completed_by(replies) == self.step(replies[0]).completed_by(replies.drop_first()),
            self.trace(replies) == seq![self.pending()->0] + self.step(replies[0]).trace(
                replies.drop_first(),
            ),
    {
    }

    proof fn lemma_run_append(
        self,
        replies: Seq<Result<u64, Fault>>,
        more: Seq<Result<u64, Fault>>,
    )
        ensures
            self.run(replies + more) == self.run(replies).run(more),
        decreases replies.len(),
    {
        if replies.len() == 0 {
            assert(replies + more =~= more);
        } else if self.pending() is Some {
            assert((replies + more).drop_first() =~= replies.drop_first() + more);
            self.step(replies[0]).lemma_run_append(replies.drop_first(), more);
        }
    }

    pub(crate) proof fn lemma_run_keeps_config(self, replies: Seq<Result<u64, Fault>>)
        ensures
            self.run(replies).config == self.config,
        decreases replies.len(),
    {
        if replies.len() > 0 && self.pending() is Some {
            self.step(replies[0]).lemma_run_keeps_config(replies.drop_first());
        }
    }

    proof fn lemma_run_without_fault(self, replies: Seq<Result<u64, Fault>>)
        requires
            !(self.phase is Failed),
            forall|i: int| 0 <= i < replies.len() ==> #[trigger] replies[i] is Ok,
        ensures
            !(self.run(replies).phase is Failed),
        decreases replies.len(),
    {
        if replies.len() > 0 && self.pending() is Some {
            assert(replies[0] is Ok);
            let rest = replies.drop_first();
            assert forall|i: int| 0 <= i < rest.len() implies #[trigger] rest[i] is Ok by {
                assert(replies[i + 1] is Ok);
            }
            self.step(replies[0]).lemma_run_without_fault(rest);
        }
    }

    proof fn lemma_run_evts(self, evts: Seq<u64>)
        requires
            self.phase == OpeningPhase::QueueEvts,
            evts.len() > 0,
            self.queue_evts.len() + evts.len() == self.num_queues(),
        ensures
            self.run(Seq::new(evts.len(), |i: int| Ok::<u64, Fault>(evts[i]))) == (OpeningView {
                phase: OpeningPhase::Done,
                queue_evts: self.queue_evts + evts,
                ..self
            }),
            self.completed_by(Seq::new(evts.len(), |i: int| Ok::<u64, Fault>(evts[i]))),
        decreases evts.len(),
    {
        let replies = Seq::new(evts.len(), |i: int| Ok::<u64, Fault>(evts[i]));
        let next = self.step(replies[0]);
        self.lemma_run_first(replies);
        assert(self.queue_evts.push(evts[0]) + evts.drop_first() =~= self.queue_evts + evts);
        if evts.len() == 1 {
            assert(next.queue_evts =~= self.queue_evts + evts);
        } else {
            let rest = evts.drop_first();
            assert(replies.drop_first() =~= Seq::new(
                rest.len(),
                |i: int| Ok::<u64, Fault>(rest[i]),
            ));
            next.lemma_run_evts(rest);
        }
    }
}

/// The start of a creation is as it has to be.
pub(crate) proof fn lemma_start_wf(config: VhostUserFsConfig)
    ensures
        OpeningView::start(config).wf(),
{
    lemma_no_feature(available_features_spec());
    lemma_no_feature(OpeningView::start(config).requested());
}

proof fn lemma_no_feature(offered: u64)
    ensures
        0u64 & !offered == 0,
{
    assert(0u64 & !offered == 0) by (bit_vector);
}

proof fn lemma_masked(offered: u64, backend: u64)
    ensures
        (offered & backend) & !offered == 0,
{
    assert((offered & backend) & !offered == 0) by (bit_vector);
}

/// What the host is asked in a creation that succeeds, and what the device has
/// from the answers. The connection is made to the configured socket, for the
/// hiprio queue and the request queues. The device offers the virtio features
/// (bits 29, 30 and 32) that the backend has. A backend with bit 30 is asked
/// for its protocol features and told those that the device then holds: of bit
/// 19, and with a DAX window of bits 3, 5 and 22, those that the backend has.
/// Where bit 3 is among them, requests ask for replies. Then come the
/// eventfds, which do not block: one for the activation, then one for each
/// queue. Nothing else is asked.
pub proof fn law_creation_calls(config: VhostUserFsConfig, replies: Seq<Result<u64, Fault>>)
    requires
        OpeningView::start(config).completed_by(replies),
    ensures
        ({
            let calls = OpeningView::start(config).trace(replies);
            let device = OpeningView::start(config).run(replies).device();
            let n = 1 + config.num_request_queues;
            let backend = replies[2]->Ok_0;
            let negotiates = backend & 0x4000_0000 != 0;
            let acks = negotiates && device.vu_acked_protocol_features & 0x8 != 0;
            let evts: int = if !negotiates {
                3
            } else if !acks {
                5
            } else {
                6
            };
            let evt = Call::Host(HostCall::CreateEventFd { flags: 0x800 });
            &&& calls.len() == replies.len() == evts + 1 + n
            &&& calls[0] == (Call::Connect { socket: config.socket@, num_queues: n as u64 })
            &&& calls[1] == Call::Vhost(VhostCall::SetOwner)
            &&& calls[2] == Call::Vhost(VhostCall::GetFeatures)
            &&& replies[0] is Ok && replies[1] is Ok && replies[2] is Ok
            &&& device.avail_features == backend & 0x1_6000_0000
            &&& device.acked_features == backend & 0x4000_0000
            &&& !negotiates ==> device.vu_acked_protocol_features == 0
            &&& negotiates ==> {
                let wanted: u64 = if config.dax_window_size_mib is Some {
                    0x48_0028
                } else {
                    0x8_0000
                };
                &&& calls[3] == Call::Vhost(VhostCall::GetProtocolFeatures)
                &&& replies[3] is Ok && replies[4] is Ok
                &&& device.vu_acked_protocol_features == replies[3]->Ok_0 & wanted
                &&& calls[4] == Call::Vhost(
                    VhostCall::SetProtocolFeatures { features: device.vu_acked_protocol_features },
                )
            }
            &&& acks ==> calls[5] == Call::Vhost(VhostCall::SetHdrFlags { flags: 0x8 })
            &&& forall|k: int| evts <= k < calls.len() ==> #[trigger] calls[k] == evt
            &&& forall|k: int| evts <= k < replies.len() ==> #[trigger] replies[k] is Ok
            &&& device.activate_evt == replies[evts]->Ok_0
            &&& device.queue_evts.len() == n
            &&& forall|i: int|
                0 <= i < n ==> #[trigger] device.queue_evts[i] == replies[evts + 1 + i]->Ok_0
        }),
{
    let start = OpeningView::start(config);
    let calls = start.trace(replies);
    start.lemma_completed(replies);
    let asked = start.step(replies[0]);
    asked.lemma_completed(replies.drop_first());
    let told = asked.step(replies[1]);
    told.lemma_completed(replies.drop_first().drop_first());
    let rest = replies.drop_first().drop_first().drop_first();
    let backend = replies[2]->Ok_0;
    let connected = told.step(replies[2]);
    lemma_feature_bits(backend);
    assert(rest =~= replies.skip(3));
    if connected.phase == OpeningPhase::GetProtocolFeatures {
        connected.lemma_completed(rest);
        lemma_protocol_bits(replies[3]->Ok_0);
        let got = connected.step(replies[3]);
        got.lemma_completed(rest.drop_first());
        let set = got.step(replies[4]);
        let left = rest.drop_first().drop_first();
        assert(left =~= replies.skip(5));
        if set.phase == OpeningPhase::SetHdrFlags {
            set.lemma_completed(left);
            let flagged = set.step(replies[5]);
            assert(left.drop_first() =~= replies.skip(6));
            flagged.lemma_evt_calls(left.drop_first(), replies, 6);
            assert forall|k: int| 6 <= k < calls.len() implies #[trigger] calls[k] == Call::Host(
                HostCall::CreateEventFd { flags: 0x800 },
            ) by {
                assert(calls[k] == flagged.trace(left.drop_first())[k - 6]);
            }
        } else {
            set.lemma_evt_calls(left, replies, 5);
            assert forall|k: int| 5 <= k < calls.len() implies #[trigger] calls[k] == Call::Host(
                HostCall::CreateEventFd { flags: 0x800 },
            ) by {
                assert(calls[k] == set.trace(left)[k - 5]);
            }
        }
    } else {
        connected.lemma_evt_calls(rest, replies, 3);
        assert forall|k: int| 3 <= k < calls.len() implies #[trigger] calls[k] == Call::Host(
            HostCall::CreateEventFd { flags: 0x800 },
        ) by {
            assert(calls[k] == connected.trace(rest)[k - 3]);
        }
    }
}

impl OpeningView {
    proof fn lemma_completed(self, replies: Seq<Result<u64, Fault>>)
        requires
            self.completed_by(replies),
            self.pending() is Some,
        ensures
            replies.len() > 0,
            self.phase != OpeningPhase::SetHdrFlags ==> replies[0] is Ok,
            self.step(replies[0]).completed_by(replies.drop_first()),
            self.run(replies) == self.step(replies[0]).run(replies.drop_first()),
            self.trace(replies) == seq![self.pending()->0] + self.step(replies[0]).trace(
                replies.drop_first(),
            ),
    {
        reveal_with_fuel(OpeningView::completed_by, 2);
    }

    /// The eventfds, from the one for the activation on, where `rest` are the
    /// answers `all` from the place `at` on.
    proof fn lemma_evt_calls(
        self,
        rest: Seq<Result<u64, Fault>>,
        all: Seq<Result<u64, Fault>>,
        at: int,
    )
        requires
            0 <= at <= all.len(),
            rest == all.skip(at),
            self.completed_by(rest),
            self.phase == OpeningPhase::ActivateEvt,
            self.queue_evts.len() == 0,
        ensures
            ({
                let end = self.run(rest);
                let calls = self.trace(rest);
                let n = self.num_queues();
                &&& rest.len() == calls.len() == 1 + n
                &&& forall|k: int|
                    0 <= k < calls.len() ==> #[trigger] calls[k] == Call::Host(
                        HostCall::CreateEventFd { flags: 0x800 },
                    )
                &&& forall|k: int| at <= k < all.len() ==> #[trigger] all[k] is Ok
                &&& end == (OpeningView {
                    phase: OpeningPhase::Done,
                    activate_evt: all[at]->Ok_0,
                    queue_evts: end.queue_evts,
                    ..self
                })
                &&& end.queue_evts.len() == n
                &&& forall|i: int|
                    0 <= i < n ==> #[trigger] end.queue_evts[i] == all[at + 1 + i]->Ok_0
            }),
    {
        self.lemma_completed(rest);
        let next = self.step(rest[0]);
        next.lemma_queue_evt_calls(rest.drop_first());
        let end = self.run(rest);
        assert forall|k: int| at <= k < all.len() implies #[trigger] all[k] is Ok by {
            assert(rest[k - at] == all[k]);
            if k > at {
                assert(rest.drop_first()[k - at - 1] == all[k]);
            }
        }
        assert forall|i: int| 0 <= i < self.num_queues() implies #[trigger] end.queue_evts[i]
            == all[at + 1 + i]->Ok_0 by {
            assert(rest.drop_first()[i] == all[at + 1 + i]);
        }
    }

    proof fn lemma_queue_evt_calls(self, replies: Seq<Result<u64, Fault>>)
        requires
            self.completed_by(replies),
            self.phase == OpeningPhase::QueueEvts,
            self.queue_evts.len() < self.num_queues(),
        ensures
            ({
                let end = self.run(replies);
                let calls = self.trace(replies);
                let n = self.num_queues() - self.queue_evts.len();
                &&& replies.len() == calls.len() == n
                &&& forall|k: int|
                    0 <= k < calls.len() ==> #[trigger] calls[k] == Call::Host(
                        HostCall::CreateEventFd { flags: 0x800 },
                    )
                &&& forall|k: int| 0 <= k < replies.len() ==> #[trigger] replies[k] is Ok
                &&& end == (OpeningView {
                    phase: OpeningPhase::Done,
                    queue_evts: end.queue_evts,
                    ..self
                })
                &&& end.queue_evts.len() == self.num_queues()
                &&& forall|i: int|
                    0 <= i < self.queue_evts.len() ==> #[trigger] end.queue_evts[i]
                        == self.queue_evts[i]
                &&& forall|i: int|
                    self.queue_evts.len() <= i < self.num_queues() ==> #[trigger] end.queue_evts[i]
                        == replies[i - self.queue_evts.len()]->Ok_0
            }),
        decreases replies.len(),
    {
        self.lemma_completed(replies);
        let rest = replies.drop_first();
        let next = self.step(replies[0]);
        if next.phase == OpeningPhase::Done {
            assert(rest.len() == 0);
            assert(next.trace(rest) =~= Seq::empty());
        } else {
            next.lemma_queue_evt_calls(rest);
            let end = self.run(replies);
            assert forall|k: int| 0 <= k < replies.len() implies #[trigger] replies[k] is Ok by {
                if k > 0 {
                    assert(rest[k - 1] == replies[k]);
                }
            }
            assert forall|i: int|
                self.queue_evts.len() <= i < self.num_queues() implies #[trigger] end.queue_evts[i]
                == replies[i - self.queue_evts.len()]->Ok_0 by {
                if i > self.queue_evts.len() {
                    assert(rest[i - self.queue_evts.len() - 1] == replies[i
                        - self.queue_evts.len()]);
                } else {
                    assert(end.queue_evts[i] == next.queue_evts[i]);
                }
            }
            assert forall|i: int|
                0 <= i < self.queue_evts.len() implies #[trigger] end.queue_evts[i]
                == self.queue_evts[i] by {
                assert(end.queue_evts[i] == next.queue_evts[i]);
            }
        }
    }
}

proof fn lemma_feature_bits(backend: u64)
    ensures
        available_features_spec() & backend == backend & 0x1_6000_0000,
        (available_features_spec() & backend) & PROTOCOL_FEATURES == backend & 0x4000_0000,
{
    assert(((1u64 << 32u64) | (1u64 << 29u64) | 0x4000_0000u64) & backend == backend
        & 0x1_6000_0000) by (bit_vector);
    assert((((1u64 << 32u64) | (1u64 << 29u64) | 0x4000_0000u64) & backend) & 0x4000_0000u64
        == backend & 0x4000_0000) by (bit_vector);
}

proof fn lemma_protocol_bits(backend: u64)
    ensures
        requested_protocol_features_spec(false) & backend == backend & 0x8_0000,
        requested_protocol_features_spec(true) & backend == backend & 0x48_0028,
{
    assert(0x8_0000u64 & backend == backend & 0x8_0000) by (bit_vector);
    assert((0x8_0000u64 | (0x20u64 | 0x40_0000u64 | 0x8u64)) & backend == backend & 0x48_0028)
        by (bit_vector);
}

/// In every creation that succeeds, whatever the backend is told about protocol
/// features is what the device then holds as acknowledged, and it is told
/// exactly once if it negotiates them at all.
pub proof fn law_backend_is_told_what_device_holds(
    config: VhostUserFsConfig,
    replies: Seq<Result<u64, Fault>>,
)
    requires
        OpeningView::start(config).completed_by(replies),
    ensures
        ({
            let calls = OpeningView::start(config).trace(replies);
            let device = OpeningView::start(config).run(replies).device();
            &&& forall|k: int|
                #![trigger calls[k]]
                0 <= k < calls.len() && calls[k] is Vhost && calls[k]->Vhost_0
                    is SetProtocolFeatures ==> calls[k] == Call::Vhost(
                    VhostCall::SetProtocolFeatures { features: device.vu_acked_protocol_features },
                )
            &&& forall|j: int, k: int|
                #![trigger calls[j], calls[k]]
                0 <= j < calls.len() && 0 <= k < calls.len() && calls[j] is Vhost
                    && calls[j]->Vhost_0 is SetProtocolFeatures && calls[j] == calls[k] ==> j == k
            &&& device.acked_features != 0 <==> calls.contains(
                Call::Vhost(
                    VhostCall::SetProtocolFeatures { features: device.vu_acked_protocol_features },
                ),
            )
        }),
{
    law_creation_calls(config, replies);
    let calls = OpeningView::start(config).trace(replies);
    let device = OpeningView::start(config).run(replies).device();
    let told = Call::Vhost(
        VhostCall::SetProtocolFeatures { features: device.vu_acked_protocol_features },
    );
    if device.acked_features != 0 {
        assert(calls[4] == told);
    } else if calls.contains(told) {
        let k = choose|k: int| 0 <= k < calls.len() && calls[k] == told;
        assert(calls[k] == told);
    }
}

/// A created device is what its configuration says: it has its id, tag and
/// socket, shows the guest the tag and the number of request queues, has one
/// queue of 256 entries that no driver has configured for the hiprio queue and
/// each request queue, and has never been used.
pub proof fn law_created_device(opening: OpeningView)
    ensures
        ({
            let device = opening.device();
            let config = opening.config;
            &&& device.id == config.fs_id@
            &&& device.tag == config.tag@
            &&& device.socket_path == config.socket@
            &&& device.num_request_queues == config.num_request_queues
            &&& device.dax_window_size_mib == config.dax_window_size_mib
            &&& device.config_space == crate::config_space::config_space(
                vstd::utf8::encode_utf8(config.tag@),
                config.num_request_queues,
            )
            &&& device.queues.len() == 1 + config.num_request_queues
            &&& forall|i: int|
                #![trigger device.queues[i]]
                0 <= i < device.queues.len() ==> {
                    let queue = device.queues[i];
                    &&& queue.max_size == 256 && queue.size == 256
                    &&& !queue.ready
                    &&& queue.desc_table_address == 0
                    &&& queue.avail_ring_address == 0
                    &&& queue.used_ring_address == 0
                    &&& queue.next_avail == 0 && queue.next_used == 0
                }
            &&& device.device_state == DeviceState::Inactive
            &&& device.backend_state is None
            &&& device.dax_window is None
            &&& device.shmem_region is None
            &&& device.backend_req_thread is None
            &&& device.backend_req_stop is None
            &&& device.metrics.activate_fails == 0
            &&& device.metrics.init_time_us == 0
            &&& device.metrics.activate_time_us == 0
        }),
{
}

/// The error of a creation names the call that failed. The setting of header
/// flags cannot fail.
pub proof fn law_creation_error_names_call(opening: OpeningView, fault: Fault)
    ensures
        match opening.pending() {
            Some(Call::Connect { .. }) => opening.step(Err(fault)).phase == OpeningPhase::Failed(
                VhostUserFsError::VhostUser(VhostUserError::Connect(fault)),
            ),
            Some(Call::Vhost(VhostCall::SetOwner)) => opening.step(Err(fault)).phase
                == OpeningPhase::Failed(
                VhostUserFsError::VhostUser(VhostUserError::VhostUserSetOwner(fault)),
            ),
            Some(Call::Vhost(VhostCall::GetFeatures)) => opening.step(Err(fault)).phase
                == OpeningPhase::Failed(
                VhostUserFsError::VhostUser(VhostUserError::VhostUserGetFeatures(fault)),
            ),
            Some(Call::Vhost(VhostCall::GetProtocolFeatures)) => opening.step(Err(fault)).phase
                == OpeningPhase::Failed(
                VhostUserFsError::VhostUser(VhostUserError::VhostUserGetProtocolFeatures(fault)),
            ),
            Some(Call::Vhost(VhostCall::SetProtocolFeatures { .. })) => opening.step(
                Err(fault),
            ).phase == OpeningPhase::Failed(
                VhostUserFsError::VhostUser(VhostUserError::VhostUserSetProtocolFeatures(fault)),
            ),
            Some(Call::Vhost(VhostCall::SetHdrFlags { .. })) => opening.step(Err(fault))
                == opening.step(Ok(0)),
            Some(Call::Host(HostCall::CreateEventFd { .. })) => opening.step(Err(fault)).phase
                == OpeningPhase::Failed(VhostUserFsError::EventFd(fault)),
            Some(_) => false,
            None => opening.phase is Done || opening.phase is Failed,
        },
{
}

/// What is told of a creation is what it holds.
pub proof fn law_view_is_the_creation(opening: Opening)
    ensures
        opening@.config == opening.config,
        opening@.phase == opening.phase,
        opening@.features == opening.features,
        opening@.protocol_features == opening.protocol_features,
        opening@.activate_evt == opening.activate_evt,
        opening@.queue_evts == opening.queue_evts@,
{
}

} // verus!
