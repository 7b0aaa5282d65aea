//! The sequences of calls that the operations on a device are made of.

use vstd::prelude::*;

use crate::device::{DeviceView, VhostUserFsImpl};
use crate::error::{ActivateError, BackendReqError, Fault, VhostUserError, VhostUserFsError};
use crate::outside::{efd_nonblock, reply_ack, EFD_NONBLOCK, REPLY_ACK};
use crate::queue::Queue;
use crate::request::{
    Call, HostCall, MemfdName, Request, TransferDirection, TransferPhase, VhostCall, VmCall,
};

verus! {

/// The LOAD device-state transfer: the blob is written to a memfd, from whose
/// start the backend reads it.
pub open spec fn load_plan(blob: Seq<u8>) -> Seq<Call> {
    seq![
        Call::Host(HostCall::CreateMemfd { name: MemfdName::State }),
        Call::WriteMemfd { bytes: blob },
        Call::Host(HostCall::RewindMemfd),
        Call::Vhost(
            VhostCall::SetDeviceStateFd {
                direction: TransferDirection::Load,
                phase: TransferPhase::Stopped,
            },
        ),
        Call::Vhost(VhostCall::CheckDeviceState),
    ]
}

/// The SAVE device-state transfer: the backend writes its blob into a memfd,
/// which is read back from its start once the transfer is complete.
pub open spec fn save_plan() -> Seq<Call> {
    seq![
        Call::Host(HostCall::CreateMemfd { name: MemfdName::State }),
        Call::Host(HostCall::DupMemfd),
        Call::Vhost(
            VhostCall::SetDeviceStateFd {
                direction: TransferDirection::Save,
                phase: TransferPhase::Stopped,
            },
        ),
        Call::Vhost(VhostCall::CheckDeviceState),
        Call::Host(HostCall::RewindMemfd),
        Call::Host(HostCall::ReadMemfd),
    ]
}

/// Enabling or disabling all vrings, in the order of the queues.
pub open spec fn vrings_plan(num_queues: nat, enabled: bool) -> Seq<Call> {
    Seq::new(
        num_queues,
        |i: int| Call::Vhost(VhostCall::SetVringEnable { index: i as usize, enable: enabled }),
    )
}

/// Initializing all queues, in their order.
pub open spec fn queues_plan(num_queues: nat, mem: u64) -> Seq<Call> {
    Seq::new(num_queues, |i: int| Call::Vm(VmCall::InitializeQueue { index: i as usize, mem }))
}

/// Opening the channel for requests of the backend. The thread that serves it
/// runs before the backend gets its end.
pub open spec fn handler_plan(host_addr: u64, size: u64, acked_protocol_features: u64) -> Seq<
    Call,
> {
    seq![
        Call::Host(HostCall::NewReqHandler { window_host_addr: host_addr, window_size: size }),
        Call::Host(
            HostCall::SetReplyAckFlag { enable: acked_protocol_features & REPLY_ACK != 0 },
        ),
        Call::Host(HostCall::CreateEventFd { flags: EFD_NONBLOCK }),
        Call::Host(HostCall::SpawnReqThread),
        Call::Vhost(VhostCall::SetBackendRequestFd),
    ]
}

/// The five calls that hand one queue over: where its rings are, how far the
/// driver has come, the two eventfds, and last the enabling.
pub open spec fn vring_call(
    queues: Seq<Queue>,
    evts: Seq<u64>,
    interrupt: u64,
    i: int,
    part: int,
) -> Call {
    let index = i as usize;
    Call::Vhost(
        if part == 0 {
            VhostCall::SetVringAddr { index, queue: queues[i] }
        } else if part == 1 {
            VhostCall::SetVringBase { index, queue: queues[i] }
        } else if part == 2 {
            VhostCall::SetVringCall { index, interrupt }
        } else if part == 3 {
            VhostCall::SetVringKick { index, evt: evts[i] }
        } else {
            VhostCall::SetVringEnable { index, enable: true }
        },
    )
}

/// How many queues are handed over: those that have an eventfd.
pub open spec fn handed_over(queues: Seq<Queue>, evts: Seq<u64>) -> nat {
    if queues.len() <= evts.len() {
        queues.len()
    } else {
        evts.len()
    }
}

/// Handing the guest memory and all queues over to the backend.
pub open spec fn setup_plan(
    queues: Seq<Queue>,
    evts: Seq<u64>,
    mem: u64,
    interrupt: u64,
) -> Seq<Call> {
    let n = handed_over(queues, evts);
    seq![Call::Vhost(VhostCall::SetMemTable { mem })] + Seq::new(
        n,
        |i: int| Call::Vhost(VhostCall::SetVringNum { index: i as usize, num: queues[i].size }),
    ) + Seq::new(5 * n, |k: int| vring_call(queues, evts, interrupt, k / 5, k % 5))
}

impl DeviceView {
    /// Loading the blob that a restored device carries.
    pub open spec fn load_part(self) -> Seq<Call> {
        match self.backend_state {
            Some(blob) => load_plan(blob),
            None => Seq::empty(),
        }
    }

    /// Serving the backend, if there is a DAX window for it.
    pub open spec fn handler_part(self) -> Seq<Call> {
        match self.dax_window {
            Some(window) => handler_plan(
                window.host_addr,
                window.size,
                self.vu_acked_protocol_features,
            ),
            None => Seq::empty(),
        }
    }

    /// All calls that activate the device.
    pub open spec fn activation_plan(self, mem: u64, interrupt: u64) -> Seq<Call> {
        queues_plan(self.queues.len(), mem) + seq![
            Call::Vhost(VhostCall::SetFeatures { features: self.acked_features }),
        ] + self.load_part() + self.handler_part() + setup_plan(
            self.queues,
            self.queue_evts,
            mem,
            interrupt,
        ) + seq![Call::Vhost(VhostCall::GetProtocolFeatures)]
    }
}

/// The error that a failed vhost-user request amounts to.
pub open spec fn vhost_error(call: VhostCall, fault: Fault) -> VhostUserError {
    match call {
        VhostCall::SetOwner => VhostUserError::VhostUserSetOwner(fault),
        VhostCall::GetFeatures => VhostUserError::VhostUserGetFeatures(fault),
        VhostCall::SetFeatures { .. } => VhostUserError::VhostUserSetFeatures(fault),
        VhostCall::GetProtocolFeatures => VhostUserError::VhostUserGetProtocolFeatures(fault),
        VhostCall::SetProtocolFeatures { .. } => VhostUserError::VhostUserSetProtocolFeatures(
            fault,
        ),
        VhostCall::SetMemTable { .. } => VhostUserError::VhostUserSetMemTable(fault),
        VhostCall::SetVringNum { .. } => VhostUserError::VhostUserSetVringNum(fault),
        VhostCall::SetVringAddr { .. } => VhostUserError::VhostUserSetVringAddr(fault),
        VhostCall::SetVringBase { .. } => VhostUserError::VhostUserSetVringBase(fault),
        VhostCall::SetVringCall { .. } => VhostUserError::VhostUserSetVringCall(fault),
        VhostCall::SetVringKick { .. } => VhostUserError::VhostUserSetVringKick(fault),
        VhostCall::SetVringEnable { .. } => VhostUserError::VhostUserSetVringEnable(fault),
        VhostCall::SetDeviceStateFd { .. } => VhostUserError::VhostUserSetDeviceStateFd(fault),
        _ => VhostUserError::VhostUserCheckDeviceState(fault),
    }
}

/// The error that a failed call of a state transfer, or of the opening of the
/// request channel, amounts to.
pub open spec fn device_error(call: Call, fault: Fault) -> VhostUserFsError {
    match call {
        Call::Vhost(VhostCall::SetBackendRequestFd) => VhostUserFsError::Vhost(fault),
        Call::Vhost(call) => VhostUserFsError::VhostUser(vhost_error(call, fault)),
        Call::Host(HostCall::CreateMemfd { .. }) => VhostUserFsError::Memfd(fault),
        Call::Host(HostCall::NewReqHandler { .. }) => VhostUserFsError::BackendReqVhost(fault),
        Call::Host(HostCall::CreateEventFd { .. }) => VhostUserFsError::EventFd(fault),
        _ => VhostUserFsError::DeviceStateTransfer(fault),
    }
}

/// The error that a failed call of an activation amounts to.
pub open spec fn activate_error(call: Call, fault: Fault) -> ActivateError {
    match call {
        Call::Vm(_) => ActivateError::QueueMemoryError(fault),
        Call::Vhost(VhostCall::SetDeviceStateFd { .. })
        | Call::Vhost(VhostCall::CheckDeviceState)
        | Call::Vhost(VhostCall::SetBackendRequestFd) => ActivateError::VhostUserFs(
            device_error(call, fault),
        ),
        Call::Vhost(call) => ActivateError::VhostUser(vhost_error(call, fault)),
        _ => ActivateError::VhostUserFs(device_error(call, fault)),
    }
}

/// The error that a failed vhost-user request amounts to.
fn fault_in_vhost(call: &VhostCall, fault: Fault) -> (error: VhostUserError)
    ensures
        error == vhost_error(*call, fault),
{
    match call {
        VhostCall::SetOwner => VhostUserError::VhostUserSetOwner(fault),
        VhostCall::GetFeatures => VhostUserError::VhostUserGetFeatures(fault),
        VhostCall::SetFeatures { .. } => VhostUserError::VhostUserSetFeatures(fault),
        VhostCall::GetProtocolFeatures => VhostUserError::VhostUserGetProtocolFeatures(fault),
        VhostCall::SetProtocolFeatures { .. } => VhostUserError::VhostUserSetProtocolFeatures(
            fault,
        ),
        VhostCall::SetMemTable { .. } => VhostUserError::VhostUserSetMemTable(fault),
        VhostCall::SetVringNum { .. } => VhostUserError::VhostUserSetVringNum(fault),
        VhostCall::SetVringAddr { .. } => VhostUserError::VhostUserSetVringAddr(fault),
        VhostCall::SetVringBase { .. } => VhostUserError::VhostUserSetVringBase(fault),
        VhostCall::SetVringCall { .. } => VhostUserError::VhostUserSetVringCall(fault),
        VhostCall::SetVringKick { .. } => VhostUserError::VhostUserSetVringKick(fault),
        VhostCall::SetVringEnable { .. } => VhostUserError::VhostUserSetVringEnable(fault),
        VhostCall::SetDeviceStateFd { .. } => VhostUserError::VhostUserSetDeviceStateFd(fault),
        _ => VhostUserError::VhostUserCheckDeviceState(fault),
    }
}

impl Request {
    /// The error that the failure of this call amounts to, in a state transfer
    /// or in the opening of the request channel.
    pub fn device_error(&self, fault: Fault) -> (error: VhostUserFsError)
        ensures
            error == device_error(self@, fault),
    {
        match self {
            Request::Vhost(VhostCall::SetBackendRequestFd) => VhostUserFsError::Vhost(fault),
            Request::Vhost(call) => VhostUserFsError::VhostUser(fault_in_vhost(call, fault)),
            Request::Host(HostCall::CreateMemfd { .. }) => VhostUserFsError::Memfd(fault),
            Request::Host(HostCall::NewReqHandler { .. }) => VhostUserFsError::BackendReqVhost(
                fault,
            ),
            Request::Host(HostCall::CreateEventFd { .. }) => VhostUserFsError::EventFd(fault),
            _ => VhostUserFsError::DeviceStateTransfer(fault),
        }
    }

    /// The error that the failure of this call amounts to, in an activation.
    pub fn activate_error(&self, fault: Fault) -> (error: ActivateError)
        ensures
            error == activate_error(self@, fault),
    {
        match self {
            Request::Vm(_) => ActivateError::QueueMemoryError(fault),
            Request::Vhost(VhostCall::SetDeviceStateFd { .. })
            | Request::Vhost(VhostCall::CheckDeviceState)
            | Request::Vhost(VhostCall::SetBackendRequestFd) => ActivateError::VhostUserFs(
                self.device_error(fault),
            ),
            Request::Vhost(call) => ActivateError::VhostUser(fault_in_vhost(call, fault)),
            _ => ActivateError::VhostUserFs(self.device_error(fault)),
        }
    }
}

impl VhostUserFsImpl {
    /// The LOAD device-state transfer: write the blob to a memfd and
    /// hand it to the backend, which reads it to EOF. Must happen before
    /// the vrings are set up and enabled.
    pub fn load_backend_state(blob: Vec<u8>) -> (plan: Vec<Request>)
        ensures
            crate::request::calls(plan@) == load_plan(blob@),
    {
        let mut plan: Vec<Request> = Vec::new();
        plan.push(Request::Host(HostCall::CreateMemfd { name: MemfdName::State }));
        plan.push(Request::WriteMemfd { bytes: blob });
        // The backend reads the blob starting at the shared file offset.
        plan.push(Request::Host(HostCall::RewindMemfd));
        plan.push(
            Request::Vhost(
                VhostCall::SetDeviceStateFd {
                    direction: TransferDirection::Load,
                    phase: TransferPhase::Stopped,
                },
            ),
        );
        plan.push(Request::Vhost(VhostCall::CheckDeviceState));
        assert(crate::request::calls(plan@) =~= load_plan(blob@));
        plan
    }

    /// The SAVE device-state transfer: the backend writes its state
    /// blob into a memfd, `CheckDeviceState` waits for the transfer to
    /// complete, then the blob is read back to bytes.
    pub fn save_backend_state() -> (plan: Vec<Request>)
        ensures
            crate::request::calls(plan@) == save_plan(),
    {
        let mut plan: Vec<Request> = Vec::new();
        plan.push(Request::Host(HostCall::CreateMemfd { name: MemfdName::State }));
        // The backend writes the blob at the shared file offset (0 for a
        // fresh memfd). Pass a dup so this end stays usable for the
        // readback below.
        plan.push(Request::Host(HostCall::DupMemfd));
        plan.push(
            Request::Vhost(
                VhostCall::SetDeviceStateFd {
                    direction: TransferDirection::Save,
                    phase: TransferPhase::Stopped,
                },
            ),
        );
        plan.push(Request::Vhost(VhostCall::CheckDeviceState));
        plan.push(Request::Host(HostCall::RewindMemfd));
        plan.push(Request::Host(HostCall::ReadMemfd));
        assert(crate::request::calls(plan@) =~= save_plan());
        plan
    }

    /// Enables or disables all vrings of the device.
    pub fn set_vrings_enabled(&self, enabled: bool) -> (plan: Vec<Request>)
        ensures
            crate::request::calls(plan@) == vrings_plan(self@.queues.len(), enabled),
    {
        let mut plan: Vec<Request> = Vec::new();
        let n: usize = self.queues.len();
        for index in 0..n
            invariant
                crate::request::calls(plan@) == vrings_plan(index as nat, enabled),
        {
            proof {
                crate::request::lemma_calls_push(
                    plan@,
                    Request::Vhost(VhostCall::SetVringEnable { index, enable: enabled }),
                );
            }
            plan.push(Request::Vhost(VhostCall::SetVringEnable { index, enable: enabled }));
            assert(crate::request::calls(plan@) =~= vrings_plan((index + 1) as nat, enabled));
        }
        plan
    }

    /// Opens the channel on which the backend asks for mappings in the DAX
    /// window.
    pub fn start_backend_req_handler(&self) -> (plan: Result<Vec<Request>, VhostUserFsError>)
        ensures
            match self@.dax_window {
                None => plan == Err::<Vec<Request>, _>(
                    VhostUserFsError::BackendReq(BackendReqError::WindowNotCreated),
                ),
                Some(_) => plan matches Ok(plan) && crate::request::calls(plan@)
                    == self@.handler_part(),
            },
    {
        let window = match &self.dax_window {
            Some(window) => window,
            None => {
                return Err(VhostUserFsError::BackendReq(BackendReqError::WindowNotCreated));
            },
        };
        let mut plan: Vec<Request> = Vec::new();
        plan.push(
            Request::Host(
                HostCall::NewReqHandler {
                    window_host_addr: window.host_addr,
                    window_size: window.size,
                },
            ),
        );
        // Answer NEED_REPLY requests when REPLY_ACK was negotiated: the
        // backend uses it so SHMEM_MAP waits for this mmap to complete —
        // the fence behind the restore-time re-map.
        plan.push(
            Request::Host(
                HostCall::SetReplyAckFlag {
                    enable: self.vu_acked_protocol_features & reply_ack() != 0,
                },
            ),
        );
        // Spawn the handler thread BEFORE handing the TX end to the
        // backend. SetBackendRequestFd waits for the backend's ack, and
        // the backend synchronously re-maps DAX ranges (SHMEM_MAP → waits for
        // OUR reply) before it can ack: spawn-after-send is a circular wait.
        // Requests can't arrive before the fd is sent, so polling early is
        // harmless.
        plan.push(Request::Host(HostCall::CreateEventFd { flags: efd_nonblock() }));
        plan.push(Request::Host(HostCall::SpawnReqThread));
        plan.push(Request::Vhost(VhostCall::SetBackendRequestFd));
        assert(crate::request::calls(plan@) =~= self@.handler_part());
        Ok(plan)
    }

    /// All queues - the hiprio queue at index 0 and the request queues after
    /// it - are handed over to the backend. The frontend never parses FUSE
    /// frames, it only ferries vring buffers.
    pub fn setup_backend(&self, mem: u64, interrupt: u64) -> (plan: Vec<Request>)
        ensures
            crate::request::calls(plan@) == setup_plan(
                self@.queues,
                self@.queue_evts,
                mem,
                interrupt,
            ),
    {
        let ghost queues = self@.queues;
        let ghost evts = self@.queue_evts;
        let n: usize = if self.queues.len() <= self.queue_evts.len() {
            self.queues.len()
        } else {
            self.queue_evts.len()
        };
        let mut plan: Vec<Request> = Vec::new();
        plan.push(Request::Vhost(VhostCall::SetMemTable { mem }));
        let ghost head = seq![Call::Vhost(VhostCall::SetMemTable { mem })];
        let ghost num = |i: int|
            Call::Vhost(VhostCall::SetVringNum { index: i as usize, num: queues[i].size });
        assert(crate::request::calls(plan@) =~= head + Seq::new(0, num));
        // The number of queues is needed at an early stage by some backends.
        for index in 0..n
            invariant
                n <= self.queues.len(),
                queues == self.queues@,
                num == |i: int|
                    Call::Vhost(VhostCall::SetVringNum { index: i as usize, num: queues[i].size }),
                crate::request::calls(plan@) == head + Seq::new(index as nat, num),
        {
            let ghost before = plan@;
            plan.push(
                Request::Vhost(VhostCall::SetVringNum { index, num: self.queues[index].size }),
            );
            proof {
                crate::request::lemma_calls_push(before, plan@.last());
            }
            assert(crate::request::calls(plan@) =~= head + Seq::new((index + 1) as nat, num));
        }
        let ghost start = head + Seq::new(n as nat, num);
        let ghost part = |k: int| vring_call(queues, evts, interrupt, k / 5, k % 5);
        assert(start =~= start + Seq::new(0, part));
        for index in 0..n
            invariant
                n <= self.queues.len(),
                n <= self.queue_evts.len(),
                queues == self.queues@,
                evts == self.queue_evts@,
                part == |k: int| vring_call(queues, evts, interrupt, k / 5, k % 5),
                crate::request::calls(plan@) == start + Seq::new((5 * index) as nat, part),
        {
            let ghost before = plan@;
            plan.push(
                Request::Vhost(VhostCall::SetVringAddr { index, queue: self.queues[index] }),
            );
            plan.push(
                Request::Vhost(VhostCall::SetVringBase { index, queue: self.queues[index] }),
            );
            // No matter the queue, the guest is signaled that buffers were consumed.
            plan.push(Request::Vhost(VhostCall::SetVringCall { index, interrupt }));
            plan.push(
                Request::Vhost(VhostCall::SetVringKick { index, evt: self.queue_evts[index] }),
            );
            plan.push(Request::Vhost(VhostCall::SetVringEnable { index, enable: true }));
            assert(crate::request::calls(plan@) =~= crate::request::calls(before) + Seq::new(
                5,
                |k: int| vring_call(queues, evts, interrupt, index as int, k),
            ));
            assert(crate::request::calls(plan@) =~= start + Seq::new(
                (5 * (index + 1)) as nat,
                part,
            ));
        }
        plan
    }

    /// Initializes all queues with the guest memory.
    fn initialize_queues(&self, mem: u64) -> (plan: Vec<Request>)
        ensures
            crate::request::calls(plan@) == queues_plan(self@.queues.len(), mem),
    {
        let mut plan: Vec<Request> = Vec::new();
        let n: usize = self.queues.len();
        for index in 0..n
            invariant
                crate::request::calls(plan@) == queues_plan(index as nat, mem),
        {
            proof {
                crate::request::lemma_calls_push(
                    plan@,
                    Request::Vm(VmCall::InitializeQueue { index, mem }),
                );
            }
            plan.push(Request::Vm(VmCall::InitializeQueue { index, mem }));
            assert(crate::request::calls(plan@) =~= queues_plan((index + 1) as nat, mem));
        }
        plan
    }

    /// All calls that activate the device.
    pub(crate) fn activation_calls(&self, mem: u64, interrupt: u64) -> (plan: Vec<Request>)
        ensures
            crate::request::calls(plan@) == self@.activation_plan(mem, interrupt),
    {
        let mut plan = self.initialize_queues(mem);
        // Setting features again, because now we negotiated them
        // with guest driver as well.
        plan.push(Request::Vhost(VhostCall::SetFeatures { features: self.acked_features }));
        let ghost set = seq![
            Call::Vhost(VhostCall::SetFeatures { features: self.acked_features }),
        ];
        assert(crate::request::calls(plan@) =~= queues_plan(self@.queues.len(), mem) + set);

        // A device restored from a snapshot carries the captured backend
        // state blob: load it into the fresh backend now, before the vrings
        // are set up and enabled. The backend's state restore is
        // independent of the memory table and vrings, but request
        // processing must only start after the state is in place.
        let ghost before = plan@;
        if let Some(blob) = &self.backend_state {
            let copy = blob.clone();
            assert(copy@ =~= blob@);
            let mut load = Self::load_backend_state(copy);
            plan.append(&mut load);
        }
        assert(crate::request::calls(plan@) =~= crate::request::calls(before) + self@.load_part());

        // If a DAX window is configured, the backend needs the
        // backend-request channel so it can send SHMEM_MAP/SHMEM_UNMAP
        // requests before the guest issues FUSE_SETUPMAPPING.
        let ghost before = plan@;
        if let Ok(mut handler) = self.start_backend_req_handler() {
            plan.append(&mut handler);
        }
        assert(crate::request::calls(plan@) =~= crate::request::calls(before)
            + self@.handler_part());

        let ghost before = plan@;
        let mut setup = self.setup_backend(mem, interrupt);
        let ghost handed = setup@;
        plan.append(&mut setup);
        assert(crate::request::calls(plan@) =~= crate::request::calls(before)
            + crate::request::calls(handed));

        // Fence the vring enabling before any kick: without REPLY_ACK the
        // enabling is fire-and-forget, and a backend that has not processed it
        // yet drops kicks. Re-querying the protocol features is a
        // reply-bearing request on this ordered socket with no side effects on
        // either end: waiting for the reply proves that the backend processed
        // the enables. (GET_VRING_BASE would also force a reply but stops the
        // ring.)
        let ghost before = plan@;
        plan.push(Request::Vhost(VhostCall::GetProtocolFeatures));
        assert(crate::request::calls(plan@) =~= crate::request::calls(before) + seq![
            Call::Vhost(VhostCall::GetProtocolFeatures),
        ]);
        plan
    }
}

} // verus!
