//! Defines the structures needed for saving/restoring fs devices.

use vstd::prelude::*;

use crate::config::VhostUserFsConfig;
use crate::dax::{DaxPhase, DaxSetup, DaxSetupView};
use crate::device::{DaxWindow, DeviceView, VhostUserFsImpl};
use crate::error::{Fault, PersistError, VhostUserFsError};
use crate::opening::{Opening, OpeningPhase, OpeningView};
use crate::queue::{Queue, VirtioDeviceType, NUM_HIPRIO_QUEUES, QUEUE_SIZE};
use crate::request::{Call, HostCall, Request};

verus! {

/// The part of a device state that all virtio devices have.
#[derive(Debug, PartialEq, Eq)]
pub struct VirtioDeviceState {
    pub device_type: VirtioDeviceType,
    pub avail_features: u64,
    pub acked_features: u64,
    pub queues: Vec<Queue>,
    pub activated: bool,
}

/// vhost-user fs device state.
#[derive(Debug, PartialEq, Eq)]
pub struct VhostUserFsState {
    pub id: String,
    pub tag: String,
    pub num_request_queues: u16,
    pub socket_path: String,
    pub vu_acked_protocol_features: u64,
    pub virtio_state: VirtioDeviceState,
    /// Backend device-state blob, captured via the vhost-user DEVICE_STATE
    /// transfer. Snapshot files cannot carry fds, so the blob rides inside
    /// the device state. Empty when the device was not activated at snapshot
    /// time.
    pub backend_state: Vec<u8>,
    /// Size of the DAX cache window in MiB, if configured.
    pub dax_window_size_mib: Option<u64>,
    /// Guest physical address where the DAX window is mapped.
    pub dax_window_gpa: Option<u64>,
}

/// Auxiliary structure for creating a device when resuming from a snapshot,
/// by the host's handles.
#[derive(Clone, Copy, Debug, PartialEq, Eq, Structural)]
pub struct FsConstructorArgs {
    pub mem: u64,
    pub vm: Option<u64>,
}

impl Clone for VirtioDeviceState {
    fn clone(&self) -> (copy: Self)
        ensures
            copy.same_as(*self),
    {
        let queues = self.queues.clone();
        assert(queues@ =~= self.queues@);
        VirtioDeviceState {
            device_type: self.device_type,
            avail_features: self.avail_features,
            acked_features: self.acked_features,
            queues,
            activated: self.activated,
        }
    }
}

impl Clone for VhostUserFsState {
    fn clone(&self) -> (copy: Self)
        ensures
            copy.same_as(*self),
    {
        let backend_state = self.backend_state.clone();
        assert(backend_state@ =~= self.backend_state@);
        VhostUserFsState {
            id: self.id.clone(),
            tag: self.tag.clone(),
            num_request_queues: self.num_request_queues,
            socket_path: self.socket_path.clone(),
            vu_acked_protocol_features: self.vu_acked_protocol_features,
            virtio_state: self.virtio_state.clone(),
            backend_state,
            dax_window_size_mib: self.dax_window_size_mib,
            dax_window_gpa: self.dax_window_gpa,
        }
    }
}

impl VirtioDeviceState {
    /// Whether the two hold the same values.
    pub open spec fn same_as(self, other: VirtioDeviceState) -> bool {
        &&& self.device_type == other.device_type
        &&& self.avail_features == other.avail_features
        &&& self.acked_features == other.acked_features
        &&& self.queues@ == other.queues@
        &&& self.activated == other.activated
    }

    /// Whether this is the virtio state of the given device.
    pub open spec fn is_of(self, device: DeviceView) -> bool {
        &&& self.device_type == VirtioDeviceType::Fs
        &&& self.avail_features == device.avail_features
        &&& self.acked_features == device.acked_features
        &&& self.queues@ == device.queues
        &&& self.activated == device.is_activated()
    }

    /// The virtio state of a device.
    pub fn from_device(device: &VhostUserFsImpl) -> (state: VirtioDeviceState)
        ensures
            state.is_of(device@),
    {
        let queues = device.queues.clone();
        assert(queues@ =~= device.queues@);
        VirtioDeviceState {
            device_type: device.device_type(),
            avail_features: device.avail_features(),
            acked_features: device.acked_features(),
            queues,
            activated: device.is_activated(),
        }
    }
}

impl VhostUserFsState {
    /// Whether the two hold the same values.
    pub open spec fn same_as(self, other: VhostUserFsState) -> bool {
        &&& self.config() == other.config()
        &&& self.vu_acked_protocol_features == other.vu_acked_protocol_features
        &&& self.virtio_state.same_as(other.virtio_state)
        &&& self.backend_state@ == other.backend_state@
        &&& self.dax_window_gpa == other.dax_window_gpa
    }

    /// Whether this is the state of the given device.
    pub open spec fn is_of(self, device: DeviceView) -> bool {
        &&& self.id@ == device.id
        &&& self.tag@ == device.tag
        &&& self.num_request_queues == device.num_request_queues
        &&& self.socket_path@ == device.socket_path
        &&& self.vu_acked_protocol_features == device.vu_acked_protocol_features
        &&& self.virtio_state.is_of(device)
        &&& self.backend_state@ == match device.backend_state {
            Some(blob) => blob,
            None => Seq::empty(),
        }
        &&& self.dax_window_size_mib == device.dax_window_size_mib
        &&& self.dax_window_gpa == device.dax_window_gpa()
    }

    /// The configuration that the device is created from again.
    pub open spec fn config(self) -> VhostUserFsConfig {
        VhostUserFsConfig {
            fs_id: self.id,
            socket: self.socket_path,
            tag: self.tag,
            num_request_queues: self.num_request_queues,
            dax_window_size_mib: self.dax_window_size_mib,
        }
    }

    /// The device that a freshly opened one becomes with this state, or why it
    /// cannot. The freshly negotiated virtio features must cover what the
    /// guest had acked, and if there is backend state to load, the fresh
    /// backend must be able to receive it.
    pub open spec fn applied_to(self, device: DeviceView, queues: Seq<Queue>) -> Result<
        DeviceView,
        VhostUserFsError,
    > {
        let acked = self.virtio_state.acked_features;
        if device.avail_features & acked != acked {
            Err(VhostUserFsError::VirtioState(PersistError::InvalidInput))
        } else if self.backend_state@.len() > 0 && !device.snapshot_capable() {
            Err(VhostUserFsError::DeviceStateNotNegotiated)
        } else {
            Ok(
                DeviceView {
                    queues,
                    acked_features: acked,
                    backend_state: if self.backend_state@.len() > 0 {
                        Some(self.backend_state@)
                    } else {
                        device.backend_state
                    },
                    ..device
                },
            )
        }
    }

    /// Puts this state into a freshly opened device.
    pub fn apply(&self, device: VhostUserFsImpl, queues: Vec<Queue>) -> (restored: Result<
        VhostUserFsImpl,
        VhostUserFsError,
    >)
        ensures
            match self.applied_to(device@, queues@) {
                Ok(view) => restored matches Ok(restored) && restored@ == view,
                Err(error) => restored == Err::<VhostUserFsImpl, _>(error),
            },
    {
        let acked: u64 = self.virtio_state.acked_features;
        if device.avail_features & acked != acked {
            return Err(VhostUserFsError::VirtioState(PersistError::InvalidInput));
        }
        if self.backend_state.len() > 0 && !device.snapshot_capable() {
            return Err(VhostUserFsError::DeviceStateNotNegotiated);
        }
        let mut restored = device;
        restored.queues = queues;
        restored.acked_features = acked;
        if self.backend_state.len() > 0 {
            // Consumed by `activate`, which loads the blob into the backend
            // before the vrings are set up and enabled.
            let blob = self.backend_state.clone();
            assert(blob@ =~= self.backend_state@);
            restored.backend_state = Some(blob);
        }
        Ok(restored)
    }
}

/// What the queues of a restored device have to be.
#[derive(Clone, Copy, Debug, PartialEq, Eq, Structural)]
pub struct ExpectedQueues {
    /// The guest memory that they have to fit.
    pub mem: u64,
    pub device_type: VirtioDeviceType,
    pub num_queues: u64,
    pub max_size: u16,
}

impl ExpectedQueues {
    /// What the queues of a device with the given state have to be.
    pub open spec fn of(mem: u64, state: VhostUserFsState) -> ExpectedQueues {
        ExpectedQueues {
            mem,
            device_type: VirtioDeviceType::Fs,
            num_queues: crate::queue::queue_count(state.num_request_queues) as u64,
            max_size: QUEUE_SIZE,
        }
    }
}

/// The restoring of a device whose queues are still to be built.
#[derive(Debug, PartialEq, Eq)]
pub struct Restoring {
    pub state: VhostUserFsState,
    pub vm: Option<u64>,
    pub expected: ExpectedQueues,
}

/// How far the restoring of a device has come.
#[derive(PartialEq, Eq)]
pub enum RestorePhase {
    /// The device is being created again.
    Open(Opening),
    /// Its DAX window is being created again.
    Window(DaxSetup),
    /// The device cannot be used, and its DAX window is given back.
    Release { window: DaxWindow, error: VhostUserFsError },
    Done(VhostUserFsImpl),
    Failed(VhostUserFsError),
}

/// The restoring of a device.
#[derive(PartialEq, Eq)]
pub struct Restoration {
    pub state: VhostUserFsState,
    pub vm: Option<u64>,
    pub queues: Vec<Queue>,
    pub phase: RestorePhase,
}

/// How far the restoring of a device has come, as a mathematical value.
pub enum RestorePhaseView {
    Open(OpeningView),
    Window(DaxSetupView),
    Release { window: DaxWindow, error: VhostUserFsError },
    Done(DeviceView),
    Failed(VhostUserFsError),
}

/// The restoring of a device as a mathematical value.
pub struct RestorationView {
    pub state: VhostUserFsState,
    pub vm: Option<u64>,
    pub queues: Seq<Queue>,
    pub phase: RestorePhaseView,
}

impl View for RestorePhase {
    type V = RestorePhaseView;

    open spec fn view(&self) -> RestorePhaseView {
        match *self {
            RestorePhase::Open(opening) => RestorePhaseView::Open(opening@),
            RestorePhase::Window(setup) => RestorePhaseView::Window(setup@),
            RestorePhase::Release { window, error } => RestorePhaseView::Release { window, error },
            RestorePhase::Done(device) => RestorePhaseView::Done(device@),
            RestorePhase::Failed(error) => RestorePhaseView::Failed(error),
        }
    }
}

impl View for Restoration {
    type V = RestorationView;

    open spec fn view(&self) -> RestorationView {
        RestorationView {
            state: self.state,
            vm: self.vm,
            queues: self.queues@,
            phase: self.phase@,
        }
    }
}

impl RestorationView {
    /// The start, once the queues have been built: the device is created
    /// again. It must have as many queues as are expected of it.
    pub open spec fn start(
        state: VhostUserFsState,
        vm: Option<u64>,
        queues: Seq<Queue>,
    ) -> RestorationView {
        if queues.len() == crate::queue::queue_count(state.num_request_queues) {
            RestorationView {
                state,
                vm,
                queues,
                phase: RestorePhaseView::Open(OpeningView::start(state.config())),
            }
        } else {
            Self::unbuilt(state, vm, PersistError::InvalidInput)
        }
    }

    /// The end, where the queues could not be built.
    pub open spec fn unbuilt(
        state: VhostUserFsState,
        vm: Option<u64>,
        error: PersistError,
    ) -> RestorationView {
        RestorationView {
            state,
            vm,
            queues: Seq::empty(),
            phase: RestorePhaseView::Failed(VhostUserFsError::VirtioState(error)),
        }
    }

    /// What becomes of a device that cannot be used: a DAX window that it has
    /// is given back before the error is reported.
    pub open spec fn refused(device: DeviceView, error: VhostUserFsError) -> RestorePhaseView {
        match device.dax_window {
            Some(window) => RestorePhaseView::Release { window, error },
            None => RestorePhaseView::Failed(error),
        }
    }

    /// The last step: the state is put into the device.
    pub open spec fn applied(self, device: DeviceView) -> RestorePhaseView {
        match self.state.applied_to(device, self.queues) {
            Ok(restored) => RestorePhaseView::Done(restored),
            Err(error) => Self::refused(device, error),
        }
    }

    /// What follows the creation of the device: the DAX window, if the state
    /// has one, pinned to the persisted address. It takes a VM.
    pub open spec fn opened(self, device: DeviceView) -> RestorePhaseView {
        if self.state.dax_window_size_mib is None {
            self.applied(device)
        } else if self.vm is None {
            Self::refused(device, VhostUserFsError::DaxWindowGpaMismatch)
        } else {
            RestorePhaseView::Window(DaxSetupView::start(device, self.state.dax_window_gpa))
        }
    }

    /// What follows the creation of the window: it must be where the guest
    /// knows it.
    pub open spec fn windowed(self, device: DeviceView) -> RestorePhaseView {
        if device.dax_window_gpa() != self.state.dax_window_gpa {
            Self::refused(device, VhostUserFsError::DaxWindowGpaMismatch)
        } else {
            self.applied(device)
        }
    }

    pub open spec fn wf(self) -> bool {
        match self.phase {
            RestorePhaseView::Open(opening) => {
                &&& opening.wf()
                &&& opening.pending() is Some
                &&& opening.config == self.state.config()
            },
            RestorePhaseView::Window(setup) => setup.wf() && setup.pending() is Some,
            _ => true,
        }
    }

    /// The call that is next, if any.
    pub open spec fn pending(self) -> Option<Call> {
        match self.phase {
            RestorePhaseView::Open(opening) => opening.pending(),
            RestorePhaseView::Window(setup) => setup.pending(),
            RestorePhaseView::Release { window, .. } => Some(
                Call::Host(HostCall::Munmap { addr: window.host_addr, len: window.size }),
            ),
            RestorePhaseView::Done(_) | RestorePhaseView::Failed(_) => None,
        }
    }

    /// At most so many calls are still to be made.
    pub open spec fn remaining(self) -> nat {
        match self.phase {
            RestorePhaseView::Open(opening) => opening.remaining() + 10,
            RestorePhaseView::Window(setup) => setup.remaining() + 1,
            RestorePhaseView::Release { .. } => 1,
            RestorePhaseView::Done(_) | RestorePhaseView::Failed(_) => 0,
        }
    }

    /// What the host can answer.
    pub open spec fn can_answer(self, reply: Result<u64, Fault>) -> bool {
        match self.phase {
            RestorePhaseView::Window(setup) => setup.can_answer(reply),
            _ => true,
        }
    }

    /// What the answer to the pending call makes of it.
    pub open spec fn step(self, reply: Result<u64, Fault>) -> RestorationView {
        let phase = match self.phase {
            RestorePhaseView::Open(opening) => {
                let next = opening.step(reply);
                match next.phase {
                    OpeningPhase::Failed(error) => RestorePhaseView::Failed(error),
                    OpeningPhase::Done => self.opened(next.device()),
                    _ => RestorePhaseView::Open(next),
                }
            },
            RestorePhaseView::Window(setup) => {
                let next = setup.step(reply);
                match next.phase {
                    DaxPhase::Failed(error) => RestorePhaseView::Failed(error),
                    DaxPhase::Done => self.windowed(next.device),
                    _ => RestorePhaseView::Window(next),
                }
            },
            RestorePhaseView::Release { error, .. } => RestorePhaseView::Failed(error),
            phase => phase,
        };
        RestorationView {
            phase,
            queues: match phase {
                RestorePhaseView::Open(_) | RestorePhaseView::Window(_) => self.queues,
                _ => Seq::empty(),
            },
            ..self
        }
    }

    /// What becomes of the restoring when its calls are answered in turn.
    pub open spec fn run(self, replies: Seq<Result<u64, Fault>>) -> RestorationView
        decreases replies.len(),
    {
        if replies.len() == 0 || self.pending() is None {
            self
        } else {
            self.step(replies[0]).run(replies.drop_first())
        }
    }
}

impl VhostUserFsImpl {
    /// Embeds the backend state blob captured by `capture_backend_state`
    /// (which runs first, where errors can still be returned) together with
    /// the virtio state.
    pub fn save(&self) -> (state: VhostUserFsState)
        ensures
            state.is_of(self@),
    {
        let backend_state = match &self.backend_state {
            Some(blob) => {
                let copy = blob.clone();
                assert(copy@ =~= blob@);
                copy
            },
            None => Vec::new(),
        };
        VhostUserFsState {
            id: self.id.clone(),
            tag: self.tag.clone(),
            num_request_queues: self.num_request_queues,
            socket_path: self.vu_handle.socket_path.clone(),
            vu_acked_protocol_features: self.vu_acked_protocol_features,
            virtio_state: VirtioDeviceState::from_device(self),
            backend_state,
            dax_window_size_mib: self.dax_window_size_mib,
            dax_window_gpa: self.dax_window_gpa(),
        }
    }

    /// Starts to restore a device from its state. The queues have to be built
    /// first, from the virtio state and the guest memory.
    pub fn restore(constructor_args: FsConstructorArgs, state: VhostUserFsState) -> (restoring:
        Restoring)
        ensures
            restoring.state == state,
            restoring.vm == constructor_args.vm,
            restoring.expected == ExpectedQueues::of(constructor_args.mem, state),
    {
        let num_queues: u64 = NUM_HIPRIO_QUEUES + state.num_request_queues as u64;
        Restoring {
            state,
            vm: constructor_args.vm,
            expected: ExpectedQueues {
                mem: constructor_args.mem,
                device_type: VirtioDeviceType::Fs,
                num_queues,
                max_size: QUEUE_SIZE,
            },
        }
    }
}

impl Restoring {
    /// Takes the queues, which must be as many as expected, and goes on by
    /// reconnecting to the backend (a fresh process at the same socket path)
    /// and re-negotiating features, DEVICE_STATE included.
    pub fn queues_built(self, queues: Result<Vec<Queue>, PersistError>) -> (restoration:
        Restoration)
        ensures
            restoration@.wf(),
            restoration@ == match queues {
                Ok(queues) => RestorationView::start(self.state, self.vm, queues@),
                Err(error) => RestorationView::unbuilt(self.state, self.vm, error),
            },
    {
        let state = self.state;
        let num_queues: u64 = NUM_HIPRIO_QUEUES + state.num_request_queues as u64;
        let checked = match queues {
            Ok(queues) => if queues.len() as u64 == num_queues {
                Ok(queues)
            } else {
                Err(PersistError::InvalidInput)
            },
            Err(error) => Err(error),
        };
        match checked {
            Err(error) => Restoration {
                state,
                vm: self.vm,
                queues: Vec::new(),
                phase: RestorePhase::Failed(VhostUserFsError::VirtioState(error)),
            },
            Ok(queues) => {
                let config = VhostUserFsConfig {
                    fs_id: state.id.clone(),
                    socket: state.socket_path.clone(),
                    tag: state.tag.clone(),
                    num_request_queues: state.num_request_queues,
                    dax_window_size_mib: state.dax_window_size_mib,
                };
                Restoration {
                    state,
                    vm: self.vm,
                    queues,
                    phase: RestorePhase::Open(VhostUserFsImpl::new(config)),
                }
            },
        }
    }
}

impl Restoration {
    /// The call that is next, if any.
    pub fn pending(&self) -> (request: Option<Request>)
        requires
            self@.wf(),
        ensures
            match request {
                Some(request) => self@.pending() == Some(request@),
                None => self@.pending() is None,
            },
    {
        match &self.phase {
            RestorePhase::Open(opening) => opening.pending(),
            RestorePhase::Window(setup) => setup.pending(),
            RestorePhase::Release { window, .. } => Some(Request::Host(window.release())),
            RestorePhase::Done(_) | RestorePhase::Failed(_) => None,
        }
    }

    /// Gives a device up that cannot be used, and its window with it.
    fn refuse(window: Option<DaxWindow>, error: VhostUserFsError) -> (phase: RestorePhase)
        ensures
            phase@ == match window {
                Some(window) => RestorePhaseView::Release { window, error },
                None => RestorePhaseView::Failed(error),
            },
    {
        match window {
            Some(window) => RestorePhase::Release { window, error },
            None => RestorePhase::Failed(error),
        }
    }

    /// Puts the state into the device.
    fn apply(state: &VhostUserFsState, device: VhostUserFsImpl, queues: Vec<Queue>) -> (phase:
        RestorePhase)
        ensures
            phase@ == match state.applied_to(device@, queues@) {
                Ok(restored) => RestorePhaseView::Done(restored),
                Err(error) => RestorationView::refused(device@, error),
            },
    {
        let window = device.dax_window;
        match state.apply(device, queues) {
            Ok(restored) => RestorePhase::Done(restored),
            Err(error) => Self::refuse(window, error),
        }
    }

    /// Takes the answer to the pending call.
    pub fn complete(self, reply: Result<u64, Fault>) -> (next: Restoration)
        requires
            self@.wf(),
            self@.pending() is Some,
            self@.can_answer(reply),
        ensures
            next@ == self@.step(reply),
            next@.wf(),
            next@.remaining() < self@.remaining(),
    {
        let state = self.state;
        let vm = self.vm;
        let queues = self.queues;
        match self.phase {
            RestorePhase::Open(opening) => {
                let next = opening.complete(reply);
                match next.pending() {
                    Some(_) => Restoration { state, vm, queues, phase: RestorePhase::Open(next) },
                    None => match next.finish() {
                        Err(error) => Restoration {
                            state,
                            vm,
                            queues: Vec::new(),
                            phase: RestorePhase::Failed(error),
                        },
                        Ok(device) => {
                            // Re-create the DAX window before the device is attached to the
                            // MMIO transport, pinned to the persisted GPA (the restored
                            // guest's mapping table names it).
                            if state.dax_window_size_mib.is_none() {
                                let phase = Self::apply(&state, device, queues);
                                Restoration { state, vm, queues: Vec::new(), phase }
                            } else if vm.is_none() {
                                let phase = Self::refuse(
                                    device.dax_window,
                                    VhostUserFsError::DaxWindowGpaMismatch,
                                );
                                Restoration { state, vm, queues: Vec::new(), phase }
                            } else {
                                let setup = device.create_dax_window(state.dax_window_gpa);
                                Restoration {
                                    state,
                                    vm,
                                    queues,
                                    phase: RestorePhase::Window(setup),
                                }
                            }
                        },
                    },
                }
            },
            RestorePhase::Window(setup) => {
                let next = setup.complete(reply);
                match next.pending() {
                    Some(_) => Restoration { state, vm, queues, phase: RestorePhase::Window(next) },
                    None => match next.finish() {
                        (_, Err(error)) => Restoration {
                            state,
                            vm,
                            queues: Vec::new(),
                            phase: RestorePhase::Failed(error),
                        },
                        (device, Ok(())) => {
                            if device.dax_window_gpa() != state.dax_window_gpa {
                                let phase = Self::refuse(
                                    device.dax_window,
                                    VhostUserFsError::DaxWindowGpaMismatch,
                                );
                                Restoration { state, vm, queues: Vec::new(), phase }
                            } else {
                                let phase = Self::apply(&state, device, queues);
                                Restoration { state, vm, queues: Vec::new(), phase }
                            }
                        },
                    },
                }
            },
            RestorePhase::Release { error, .. } => Restoration {
                state,
                vm,
                queues: Vec::new(),
                phase: RestorePhase::Failed(error),
            },
            phase => Restoration { state, vm, queues: Vec::new(), phase },
        }
    }

    /// The outcome, once no call is pending.
    pub fn finish(self) -> (result: Result<VhostUserFsImpl, VhostUserFsError>)
        requires
            self@.wf(),
            self@.pending() is None,
        ensures
            match self@.phase {
                RestorePhaseView::Done(view) => result matches Ok(device) && device@ == view,
                RestorePhaseView::Failed(error) => result == Err::<VhostUserFsImpl, _>(error),
                _ => false,
            },
    {
        match self.phase {
            RestorePhase::Done(device) => Ok(device),
            RestorePhase::Failed(error) => Err(error),
            _ => Err(VhostUserFsError::Config),
        }
    }
}

impl DeviceView {
    /// Whether the device was created from the given configuration, and has
    /// not been used since.
    pub open spec fn created_from(self, config: VhostUserFsConfig) -> bool {
        &&& self.id == config.fs_id@
        &&& self.tag == config.tag@
        &&& self.socket_path == config.socket@
        &&& self.num_request_queues == config.num_request_queues
        &&& self.config_space == crate::config_space::config_space(
            vstd::utf8::encode_utf8(config.tag@),
            config.num_request_queues,
        )
        &&& self.dax_window_size_mib == config.dax_window_size_mib
        &&& !self.is_activated()
        &&& self.backend_state is None
    }
}

impl RestorationView {
    /// What holds on the way: the device is created from the configuration in
    /// the state.
    pub open spec fn on_the_way(self, queues: Seq<Queue>) -> bool {
        match self.phase {
            RestorePhaseView::Open(opening) => {
                &&& opening.config == self.state.config()
                &&& opening.wf()
                &&& self.queues == queues
            },
            RestorePhaseView::Window(setup) => {
                &&& setup.device.created_from(self.state.config())
                &&& setup.device.wf()
                &&& setup.device.lacks_window()
                &&& setup.pending() is Some
                &&& self.queues == queues
                &&& self.vm is Some
            },
            RestorePhaseView::Done(restored) => exists|device: DeviceView|
                {
                    &&& #[trigger] device.created_from(self.state.config())
                    &&& device.wf()
                    &&& self.state.applied_to(device, queues) == Ok::<_, VhostUserFsError>(restored)
                    &&& self.state.dax_window_size_mib is Some ==> {
                        &&& device.dax_window is Some
                        &&& device.dax_window_gpa() == self.state.dax_window_gpa
                        &&& self.vm is Some
                    }
                },
            RestorePhaseView::Release { .. } | RestorePhaseView::Failed(_) => true,
        }
    }

    proof fn lemma_stays_on_the_way(self, queues: Seq<Queue>, replies: Seq<Result<u64, Fault>>)
        requires
            self.on_the_way(queues),
        ensures
            self.run(replies).on_the_way(queues),
            self.run(replies).state == self.state,
            self.run(replies).vm == self.vm,
        decreases replies.len(),
    {
        if replies.len() > 0 && self.pending() is Some {
            let reply = replies[0];
            match self.phase {
                RestorePhaseView::Open(opening) => {
                    let device = opening.step(reply).device();
                    opening.lemma_step_wf(reply);
                    assert(device.created_from(self.state.config()));
                },
                RestorePhaseView::Window(setup) => {
                    let device = setup.step(reply).device;
                    assert(device.created_from(self.state.config()));
                    assert(device.wf());
                },
                _ => {},
            }
            self.step(reply).lemma_stays_on_the_way(queues, replies.drop_first());
        }
    }
}

/// A device that is saved and restored comes back inactive, with its identity,
/// its backend socket, its config space, the features that the guest had
/// acknowledged, the queues that were built from its state, and its DAX window
/// where the guest knows it. A blob that it held is held again, byte for byte,
/// unless it is empty.
pub proof fn law_restored_device_is_saved_device(
    saved: DeviceView,
    state: VhostUserFsState,
    vm: Option<u64>,
    queues: Seq<Queue>,
    replies: Seq<Result<u64, Fault>>,
)
    requires
        saved.wf(),
        state.is_of(saved),
    ensures
        RestorationView::start(state, vm, queues).run(replies).phase matches RestorePhaseView::Done(
            restored,
        ) ==> {
            &&& restored.id == saved.id
            &&& restored.tag == saved.tag
            &&& restored.num_request_queues == saved.num_request_queues
            &&& restored.socket_path == saved.socket_path
            &&& restored.config_space == saved.config_space
            &&& restored.acked_features == saved.acked_features
            &&& restored.avail_features & saved.acked_features == saved.acked_features
            &&& restored.queues == queues
            &&& restored.dax_window_size_mib == saved.dax_window_size_mib
            &&& restored.dax_window_gpa() == saved.dax_window_gpa()
            &&& !restored.is_activated()
            &&& restored.backend_state == match saved.backend_state {
                Some(blob) => if blob.len() > 0 {
                    Some(blob)
                } else {
                    None
                },
                None => None,
            }
            &&& restored.backend_state is Some ==> restored.snapshot_capable()
            &&& restored.wf()
        },
{
    let start = RestorationView::start(state, vm, queues);
    crate::opening::lemma_start_wf(state.config());
    start.lemma_stays_on_the_way(queues, replies);
    if let RestorePhaseView::Done(restored) = start.run(replies).phase {
        let device = choose|device: DeviceView|
            {
                &&& #[trigger] device.created_from(state.config())
                &&& device.wf()
                &&& state.applied_to(device, queues) == Ok::<_, VhostUserFsError>(restored)
                &&& state.dax_window_size_mib is Some ==> {
                    &&& device.dax_window is Some
                    &&& device.dax_window_gpa() == state.dax_window_gpa
                    &&& vm is Some
                }
            };
        assert(device.created_from(state.config()));
        assert(restored.dax_window_gpa() == device.dax_window_gpa());
        assert(restored.snapshot_capable() == device.snapshot_capable());
    }
}

/// The blob that a device held when it was saved is what the restored device
/// writes out for its backend when it is activated; without one it loads
/// nothing.
pub proof fn law_blob_survives_snapshot(
    saved: DeviceView,
    state: VhostUserFsState,
    vm: Option<u64>,
    queues: Seq<Queue>,
    replies: Seq<Result<u64, Fault>>,
    mem: u64,
    interrupt: u64,
)
    requires
        saved.wf(),
        state.is_of(saved),
    ensures
        RestorationView::start(state, vm, queues).run(replies).phase matches RestorePhaseView::Done(
            restored,
        ) ==> {
            let plan = restored.activation_plan(mem, interrupt);
            match saved.backend_state {
                Some(blob) if blob.len() > 0 => plan[restored.features_at() + 2] == (
                Call::WriteMemfd { bytes: blob }),
                _ => restored.load_part() == Seq::<Call>::empty(),
            }
        },
{
    law_restored_device_is_saved_device(saved, state, vm, queues, replies);
    if let RestorePhaseView::Done(restored) = RestorationView::start(state, vm, queues).run(
        replies,
    ).phase {
        crate::activate::law_load_precedes_hand_over(restored, mem, interrupt);
    }
}

/// A device that is restored has a DAX window exactly if a size is configured;
/// that takes a VM and a persisted address, at which the window then is.
pub proof fn law_restored_window(
    state: VhostUserFsState,
    vm: Option<u64>,
    queues: Seq<Queue>,
    replies: Seq<Result<u64, Fault>>,
)
    ensures
        RestorationView::start(state, vm, queues).run(replies).phase matches RestorePhaseView::Done(
            restored,
        ) ==> match state.dax_window_size_mib {
            Some(_) => {
                &&& vm is Some
                &&& state.dax_window_gpa is Some
                &&& restored.dax_window_gpa() == state.dax_window_gpa
            },
            None => restored.dax_window_gpa() is None,
        },
{
    let start = RestorationView::start(state, vm, queues);
    crate::opening::lemma_start_wf(state.config());
    start.lemma_stays_on_the_way(queues, replies);
    if let RestorePhaseView::Done(restored) = start.run(replies).phase {
        let device = choose|device: DeviceView|
            {
                &&& #[trigger] device.created_from(state.config())
                &&& device.wf()
                &&& state.applied_to(device, queues) == Ok::<_, VhostUserFsError>(restored)
                &&& state.dax_window_size_mib is Some ==> {
                    &&& device.dax_window is Some
                    &&& device.dax_window_gpa() == state.dax_window_gpa
                    &&& vm is Some
                }
            };
        assert(device.created_from(state.config()));
        assert(restored.dax_window_gpa() == device.dax_window_gpa());
    }
}

/// What is saved of a restored device agrees with the state that it was
/// restored from, the device has as many queues as that state asks for, and it
/// holds a blob exactly if that state did.
pub proof fn law_restored_device_saves_the_same(
    saved: DeviceView,
    state: VhostUserFsState,
    vm: Option<u64>,
    queues: Seq<Queue>,
    replies: Seq<Result<u64, Fault>>,
    again: VhostUserFsState,
)
    requires
        saved.wf(),
        state.is_of(saved),
    ensures
        RestorationView::start(state, vm, queues).run(replies).phase matches RestorePhaseView::Done(
            restored,
        ) ==> {
            &&& restored.wf()
            &&& restored.queues.len() == crate::queue::queue_count(state.num_request_queues)
            &&& restored.backend_state is Some <==> state.backend_state@.len() > 0
            &&& again.is_of(restored) ==> {
                &&& again.id@ == state.id@
                &&& again.tag@ == state.tag@
                &&& again.num_request_queues == state.num_request_queues
                &&& again.socket_path@ == state.socket_path@
                &&& again.backend_state@ == state.backend_state@
                &&& again.dax_window_size_mib == state.dax_window_size_mib
                &&& again.dax_window_gpa == state.dax_window_gpa
                &&& again.virtio_state.acked_features == state.virtio_state.acked_features
                &&& again.virtio_state.device_type == state.virtio_state.device_type
                &&& !again.virtio_state.activated
            }
        },
{
    law_restored_device_is_saved_device(saved, state, vm, queues, replies);
    if let RestorePhaseView::Done(restored) = RestorationView::start(state, vm, queues).run(
        replies,
    ).phase {
        if again.is_of(restored) {
            assert(again.backend_state@ =~= state.backend_state@);
        }
    }
}

/// A window that has been created for a device which then cannot be used is
/// given back: unmapping exactly that window is the one call that follows,
/// whatever it is answered, and then the reason is reported.
pub proof fn law_refused_device_gives_window_back(
    restoration: RestorationView,
    setup: DaxSetupView,
    reply: Result<u64, Fault>,
    ignored: Result<u64, Fault>,
)
    requires
        restoration.phase == RestorePhaseView::Window(setup),
        setup.pending() is Some,
        setup.step(reply).phase == DaxPhase::Done,
    ensures
        ({
            let device = setup.step(reply).device;
            let next = restoration.step(reply);
            let refused = if device.dax_window_gpa() != restoration.state.dax_window_gpa {
                Some(VhostUserFsError::DaxWindowGpaMismatch)
            } else {
                match restoration.state.applied_to(device, restoration.queues) {
                    Err(error) => Some(error),
                    Ok(_) => None,
                }
            };
            &&& device.dax_window is Some
            &&& refused is None ==> next.phase is Done
            &&& refused matches Some(error) ==> {
                &&& next.pending() == Some(
                    Call::Host(
                        HostCall::Munmap {
                            addr: device.dax_window->0.host_addr,
                            len: device.dax_window->0.size,
                        },
                    ),
                )
                &&& next.step(ignored).phase == RestorePhaseView::Failed(error)
            }
        }),
{
}

/// A DAX window cannot be restored without a VM: once the device has been
/// created again, the restoring fails with a mismatch, without a further call.
pub proof fn law_window_needs_vm(
    state: VhostUserFsState,
    queues: Seq<Queue>,
    replies: Seq<Result<u64, Fault>>,
)
    requires
        state.dax_window_size_mib is Some,
        queues.len() == crate::queue::queue_count(state.num_request_queues),
        OpeningView::start(state.config()).completed_by(replies),
    ensures
        RestorationView::start(state, None, queues).run(replies).phase == RestorePhaseView::Failed(
            VhostUserFsError::DaxWindowGpaMismatch,
        ),
{
    let start = RestorationView::start(state, None, queues);
    start.lemma_run_open(OpeningView::start(state.config()), replies, Seq::empty());
    assert(replies + Seq::<Result<u64, Fault>>::empty() =~= replies);
}

impl RestorationView {
    proof fn lemma_run_open(
        self,
        opening: OpeningView,
        replies: Seq<Result<u64, Fault>>,
        rest: Seq<Result<u64, Fault>>,
    )
        requires
            self.phase == RestorePhaseView::Open(opening),
            opening.pending() is Some,
            opening.completed_by(replies),
        ensures
            self.run(replies + rest) == (RestorationView {
                phase: self.opened(opening.run(replies).device()),
                queues: if self.opened(opening.run(replies).device()) is Window {
                    self.queues
                } else {
                    Seq::empty()
                },
                ..self
            }).run(rest),
        decreases replies.len(),
    {
        reveal_with_fuel(OpeningView::completed_by, 2);
        let next = opening.step(replies[0]);
        assert((replies + rest).drop_first() =~= replies.drop_first() + rest);
        assert(self.run(replies + rest) == self.step(replies[0]).run(replies.drop_first() + rest));
        if replies.len() == 1 {
            assert(replies.drop_first() + rest =~= rest);
            assert(next.run(replies.drop_first()) == next);
        } else {
            assert(next.pending() is Some);
            self.step(replies[0]).lemma_run_open(next, replies.drop_first(), rest);
        }
    }

    proof fn lemma_run_window(self, setup: DaxSetupView, replies: Seq<Result<u64, Fault>>)
        requires
            self.phase == RestorePhaseView::Window(setup),
            setup.pending() is Some,
            setup.run(replies).phase == DaxPhase::Done,
            self.windowed(setup.run(replies).device) is Done,
        ensures
            self.run(replies).phase == self.windowed(setup.run(replies).device),
        decreases replies.len(),
    {
        let next = setup.step(replies[0]);
        if next.phase == DaxPhase::Done {
            assert(next.run(replies.drop_first()) == next);
        } else {
            if next.pending() is None {
                assert(next.run(replies.drop_first()) == next);
            }
            self.step(replies[0]).lemma_run_window(next, replies.drop_first());
        }
    }
}

/// Where every call succeeds, the backend still has the features that the
/// guest had acknowledged and can take the blob, if there is one, the device
/// is restored; a DAX window at its persisted address, if there is a VM for
/// it.
pub proof fn law_restore_succeeds(
    state: VhostUserFsState,
    vm: Option<u64>,
    queues: Seq<Queue>,
    backend_features: u64,
    backend_protocol_features: u64,
    activate_evt: u64,
    queue_evts: Seq<u64>,
    fd: u64,
    ptr: u64,
    slot: u64,
    ignored: Result<u64, Fault>,
)
    requires
        queues.len() == crate::queue::queue_count(state.num_request_queues),
        queue_evts.len() == crate::queue::queue_count(state.num_request_queues),
        ({
            let features = crate::opening::available_features_spec() & backend_features;
            let acked = state.virtio_state.acked_features;
            let protocol = crate::opening::requested_protocol_features_spec(
                state.dax_window_size_mib is Some,
            ) & backend_protocol_features;
            &&& features & acked == acked
            &&& state.backend_state@.len() > 0 ==> features & crate::outside::PROTOCOL_FEATURES != 0
                && protocol & crate::outside::DEVICE_STATE != 0
        }),
        state.dax_window_size_mib matches Some(mib) ==> {
            &&& vm is Some
            &&& state.dax_window_gpa is Some
            &&& fd <= i32::MAX
            &&& slot <= u32::MAX
            &&& ptr + crate::dax::mib_in_bytes(mib) + crate::dax::WINDOW_ALIGN <= u64::MAX
        },
    ensures
        ({
            let opening = crate::opening::success_replies(
                state.config(),
                backend_features,
                backend_protocol_features,
                activate_evt,
                queue_evts,
            );
            let window = match state.dax_window_size_mib {
                Some(mib) => crate::dax::dax_success_replies(
                    crate::dax::mib_in_bytes(mib),
                    state.dax_window_gpa,
                    fd,
                    ptr,
                    0,
                    slot,
                    ignored,
                ),
                None => Seq::empty(),
            };
            RestorationView::start(state, vm, queues).run(opening + window).phase is Done
        }),
{
    let start = RestorationView::start(state, vm, queues);
    let replies = crate::opening::success_replies(
        state.config(),
        backend_features,
        backend_protocol_features,
        activate_evt,
        queue_evts,
    );
    crate::opening::law_opening_negotiates(
        state.config(),
        backend_features,
        backend_protocol_features,
        activate_evt,
        queue_evts,
    );
    let opening = OpeningView::start(state.config());
    let device = opening.run(replies).device();
    match state.dax_window_size_mib {
        None => {
            start.lemma_run_open(opening, replies, Seq::empty());
        },
        Some(mib) => {
            let window = crate::dax::dax_success_replies(
                crate::dax::mib_in_bytes(mib),
                state.dax_window_gpa,
                fd,
                ptr,
                0,
                slot,
                ignored,
            );
            crate::dax::law_dax_window_created(
                device,
                state.dax_window_gpa,
                fd,
                ptr,
                0,
                slot,
                ignored,
            );
            start.lemma_run_open(opening, replies, window);
            let setup = DaxSetupView::start(device, state.dax_window_gpa);
            let windowing = RestorationView { phase: RestorePhaseView::Window(setup), ..start };
            windowing.lemma_run_window(setup, window);
            assert(setup.run(window).device.snapshot_capable() == device.snapshot_capable());
        },
    }
}

proof fn lemma_device_state_bit(features: u64)
    ensures
        features & crate::outside::DEVICE_STATE != 0 <==> features & 0x8_0000 == 0x8_0000,
{
    assert(features & 0x8_0000u64 != 0 <==> features & 0x8_0000 == 0x8_0000) by (bit_vector);
}

/// Two devices with the same saved state agree in all that a snapshot keeps:
/// what names them, their backend, their features, their queues, whether they
/// were active, where their window is and what blob they hold, where no blob
/// and an empty one count as the same.
pub proof fn law_state_tells_devices_apart(
    state: VhostUserFsState,
    device: DeviceView,
    other: DeviceView,
)
    requires
        state.is_of(device),
        state.is_of(other),
    ensures
        device.id == other.id,
        device.tag == other.tag,
        device.num_request_queues == other.num_request_queues,
        device.socket_path == other.socket_path,
        device.vu_acked_protocol_features == other.vu_acked_protocol_features,
        device.avail_features == other.avail_features,
        device.acked_features == other.acked_features,
        device.queues == other.queues,
        device.device_state is Activated <==> other.device_state is Activated,
        device.dax_window_size_mib == other.dax_window_size_mib,
        device.dax_window is Some <==> other.dax_window is Some,
        device.dax_window is Some ==> device.dax_window->0.gpa == other.dax_window->0.gpa,
        device.backend_state is Some && other.backend_state is Some ==> device.backend_state
            == other.backend_state,
        device.backend_state is Some && other.backend_state is None
            ==> device.backend_state->0.len() == 0,
{
}

/// What a saved state holds of its device, field by field.
pub proof fn law_state_holds_the_device(state: VhostUserFsState, device: DeviceView)
    requires
        state.is_of(device),
    ensures
        state.id@ == device.id,
        state.tag@ == device.tag,
        state.num_request_queues == device.num_request_queues,
        state.socket_path@ == device.socket_path,
        state.vu_acked_protocol_features == device.vu_acked_protocol_features,
        state.virtio_state.avail_features == device.avail_features,
        state.virtio_state.acked_features == device.acked_features,
        state.virtio_state.queues@ == device.queues,
        state.virtio_state.activated <==> device.device_state is Activated,
        state.dax_window_size_mib == device.dax_window_size_mib,
        state.dax_window_gpa is Some <==> device.dax_window is Some,
        device.dax_window matches Some(window) ==> state.dax_window_gpa == Some(window.gpa),
        device.backend_state matches Some(blob) ==> state.backend_state@ == blob,
        device.backend_state is None ==> state.backend_state@.len() == 0,
{
}

/// A state changes a freshly created device in its queues, in the features that
/// the guest had acknowledged and, if it carries a blob, in the blob, and in
/// nothing else. It is refused exactly if one of these features is missing, or
/// else if it carries a blob that the backend cannot take.
pub proof fn law_state_changes_only_what_it_carries(
    state: VhostUserFsState,
    device: DeviceView,
    queues: Seq<Queue>,
)
    ensures
        ({
            let acked = state.virtio_state.acked_features;
            let blob = state.backend_state@;
            let has_features = device.avail_features & acked == acked;
            let takes_blob = blob.len() == 0 || device.vu_acked_protocol_features & 0x8_0000
                == 0x8_0000;
            match state.applied_to(device, queues) {
                Ok(restored) => {
                    &&& has_features
                    &&& takes_blob
                    &&& restored.queues == queues
                    &&& restored.acked_features == acked
                    &&& blob.len() > 0 ==> restored.backend_state == Some(blob)
                    &&& blob.len() == 0 ==> restored.backend_state == device.backend_state
                    &&& device == (DeviceView {
                        queues: device.queues,
                        acked_features: device.acked_features,
                        backend_state: device.backend_state,
                        ..restored
                    })
                },
                Err(error) => {
                    &&& error == VhostUserFsError::VirtioState(PersistError::InvalidInput)
                        <==> !has_features
                    &&& error == VhostUserFsError::DeviceStateNotNegotiated <==> has_features
                        && !takes_blob
                    &&& !has_features || !takes_blob
                },
            }
        }),
{
    lemma_device_state_bit(device.vu_acked_protocol_features);
}

/// A device without a DAX window is restored by creating it from its saved
/// configuration, with the very calls of that creation, and then putting the
/// state into the created device.
pub proof fn law_restored_device_is_created_again(
    state: VhostUserFsState,
    vm: Option<u64>,
    queues: Seq<Queue>,
    replies: Seq<Result<u64, Fault>>,
)
    requires
        state.dax_window_size_mib is None,
        queues.len() == 1 + state.num_request_queues,
        OpeningView::start(state.config()).completed_by(replies),
    ensures
        ({
            let created = OpeningView::start(state.config()).run(replies).device();
            let end = RestorationView::start(state, vm, queues).run(replies);
            match state.applied_to(created, queues) {
                Ok(restored) => end.phase == RestorePhaseView::Done(restored),
                Err(error) => end.phase == RestorePhaseView::Failed(error),
            }
        }),
{
    let start = RestorationView::start(state, vm, queues);
    let opening = OpeningView::start(state.config());
    start.lemma_run_open(opening, replies, Seq::empty());
    assert(replies + Seq::<Result<u64, Fault>>::empty() =~= replies);
}

/// If the device cannot be created again, the restoring fails as the creation
/// does.
pub proof fn law_restore_fails_with_creation(
    state: VhostUserFsState,
    vm: Option<u64>,
    queues: Seq<Queue>,
    replies: Seq<Result<u64, Fault>>,
    error: VhostUserFsError,
)
    requires
        queues.len() == 1 + state.num_request_queues,
        OpeningView::start(state.config()).run(replies).phase == OpeningPhase::Failed(error),
    ensures
        RestorationView::start(state, vm, queues).run(replies).phase == RestorePhaseView::Failed(
            error,
        ),
{
    let opening = OpeningView::start(state.config());
    RestorationView::start(state, vm, queues).lemma_run_open_fails(opening, replies, error);
}

/// Queues that could not be built, or that are not one hiprio queue and the
/// saved number of request queues, end the restoring before any call.
pub proof fn law_restore_needs_its_queues(
    state: VhostUserFsState,
    vm: Option<u64>,
    queues: Seq<Queue>,
    error: PersistError,
)
    ensures
        RestorationView::unbuilt(state, vm, error).pending() is None,
        RestorationView::unbuilt(state, vm, error).phase == RestorePhaseView::Failed(
            VhostUserFsError::VirtioState(error),
        ),
        queues.len() != 1 + state.num_request_queues ==> {
            let start = RestorationView::start(state, vm, queues);
            &&& start.pending() is None
            &&& start.phase == RestorePhaseView::Failed(
                VhostUserFsError::VirtioState(PersistError::InvalidInput),
            )
        },
        queues.len() == 1 + state.num_request_queues ==> {
            let start = RestorationView::start(state, vm, queues);
            &&& start.pending() == Some(
                Call::Connect {
                    socket: state.socket_path@,
                    num_queues: (1 + state.num_request_queues) as u64,
                },
            )
            &&& start.queues == queues
        },
{
}

impl RestorationView {
    proof fn lemma_run_open_fails(
        self,
        opening: OpeningView,
        replies: Seq<Result<u64, Fault>>,
        error: VhostUserFsError,
    )
        requires
            self.phase == RestorePhaseView::Open(opening),
            opening.pending() is Some,
            opening.run(replies).phase == OpeningPhase::Failed(error),
        ensures
            self.run(replies).phase == RestorePhaseView::Failed(error),
        decreases replies.len(),
    {
        let next = opening.step(replies[0]);
        if next.pending() is None {
            assert(next.run(replies.drop_first()) == next);
        } else {
            self.step(replies[0]).lemma_run_open_fails(next, replies.drop_first(), error);
        }
    }

    proof fn lemma_run_window_fails(
        self,
        setup: DaxSetupView,
        replies: Seq<Result<u64, Fault>>,
        error: VhostUserFsError,
    )
        requires
            self.phase == RestorePhaseView::Window(setup),
            setup.pending() is Some,
            setup.run(replies).phase == DaxPhase::Failed(error),
        ensures
            self.run(replies).phase == RestorePhaseView::Failed(error),
        decreases replies.len(),
    {
        let next = setup.step(replies[0]);
        if next.pending() is None {
            assert(next.run(replies.drop_first()) == next);
        } else {
            self.step(replies[0]).lemma_run_window_fails(next, replies.drop_first(), error);
        }
    }
}

/// A device with a DAX window is restored by creating it again, creating the
/// window for it at the persisted address, and then putting the state into
/// it; if the window cannot be created, the restoring fails as its creation
/// does.
pub proof fn law_restored_window_is_created_again(
    state: VhostUserFsState,
    vm: Option<u64>,
    queues: Seq<Queue>,
    replies: Seq<Result<u64, Fault>>,
    window: Seq<Result<u64, Fault>>,
)
    requires
        state.dax_window_size_mib is Some,
        vm is Some,
        queues.len() == 1 + state.num_request_queues,
        OpeningView::start(state.config()).completed_by(replies),
    ensures
        ({
            let created = OpeningView::start(state.config()).run(replies).device();
            let setup = DaxSetupView::start(created, state.dax_window_gpa).run(window);
            let end = RestorationView::start(state, vm, queues).run(replies + window);
            &&& setup.phase matches DaxPhase::Failed(error) ==> end.phase
                == RestorePhaseView::Failed(error)
            &&& setup.phase == DaxPhase::Done && setup.device.dax_window_gpa()
                == state.dax_window_gpa ==> {
                state.applied_to(setup.device, queues) matches Ok(restored) ==> end.phase
                    == RestorePhaseView::Done(restored)
            }
        }),
{
    let start = RestorationView::start(state, vm, queues);
    let opening = OpeningView::start(state.config());
    let created = opening.run(replies).device();
    let setup = DaxSetupView::start(created, state.dax_window_gpa);
    let windowing = RestorationView { phase: RestorePhaseView::Window(setup), ..start };
    opening.lemma_run_keeps_config(replies);
    start.lemma_run_open(opening, replies, window);
    assert(start.run(replies + window) == windowing.run(window));
    if let DaxPhase::Failed(error) = setup.run(window).phase {
        windowing.lemma_run_window_fails(setup, window, error);
    }
    if setup.run(window).phase == DaxPhase::Done && setup.run(window).device.dax_window_gpa()
        == state.dax_window_gpa {
        if state.applied_to(setup.run(window).device, queues) is Ok {
            windowing.lemma_run_window(setup, window);
        }
    }
}

/// A copy of a state holds what the state holds, so it is a state of the same
/// devices.
pub proof fn law_copy_is_the_state(
    copy: VhostUserFsState,
    state: VhostUserFsState,
    device: DeviceView,
)
    requires
        copy.same_as(state),
    ensures
        copy.is_of(device) <==> state.is_of(device),
        copy.id@ == state.id@,
        copy.tag@ == state.tag@,
        copy.num_request_queues == state.num_request_queues,
        copy.socket_path@ == state.socket_path@,
        copy.vu_acked_protocol_features == state.vu_acked_protocol_features,
        copy.virtio_state.device_type == state.virtio_state.device_type,
        copy.virtio_state.avail_features == state.virtio_state.avail_features,
        copy.virtio_state.acked_features == state.virtio_state.acked_features,
        copy.virtio_state.queues@ == state.virtio_state.queues@,
        copy.virtio_state.activated == state.virtio_state.activated,
        copy.backend_state@ == state.backend_state@,
        copy.dax_window_size_mib == state.dax_window_size_mib,
        copy.dax_window_gpa == state.dax_window_gpa,
{
}

/// The configuration that a device is created from again is the saved one.
pub proof fn law_saved_config(state: VhostUserFsState)
    ensures
        state.config().fs_id@ == state.id@,
        state.config().socket@ == state.socket_path@,
        state.config().tag@ == state.tag@,
        state.config().num_request_queues == state.num_request_queues,
        state.config().dax_window_size_mib == state.dax_window_size_mib,
{
}

/// What is told of a restoring is what it holds.
pub proof fn law_view_is_the_restoration(restoration: Restoration)
    ensures
        restoration@.state == restoration.state,
        restoration@.vm == restoration.vm,
        restoration@.queues == restoration.queues@,
        match restoration.phase {
            RestorePhase::Open(opening) => restoration@.phase == RestorePhaseView::Open(opening@),
            RestorePhase::Window(setup) => restoration@.phase == RestorePhaseView::Window(setup@),
            RestorePhase::Release { window, error } => restoration@.phase == (
            RestorePhaseView::Release { window, error }),
            RestorePhase::Done(device) => restoration@.phase == RestorePhaseView::Done(device@),
            RestorePhase::Failed(error) => restoration@.phase == RestorePhaseView::Failed(error),
        },
{
}

/// The queues of a restored device are those of an fs device in the guest memory
/// it is given, one more than it has request queues, with at most 256 entries:
/// as many and as large as a new device has.
pub proof fn law_expected_queues(mem: u64, state: VhostUserFsState, opening: OpeningView)
    requires
        opening.config == state.config(),
    ensures
        ({
            let expected = ExpectedQueues::of(mem, state);
            let created = opening.device().queues;
            &&& expected.mem == mem
            &&& expected.device_type == VirtioDeviceType::Fs
            &&& expected.num_queues == state.num_request_queues + 1
            &&& expected.max_size == 256
            &&& expected.num_queues == created.len()
            &&& forall|i: int|
                0 <= i < created.len() ==> (#[trigger] created[i]).max_size == expected.max_size
        }),
{
}

} // verus!
