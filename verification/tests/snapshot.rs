//! Capturing, saving and restoring a device, against a backend that speaks the
//! device-state transfer and records the order of the calls.

use vhost::vhost_user::message::VhostUserProtocolFeatures;
use vhost_user_fs::capture::Capture;
use vhost_user_fs::config::VhostUserFsConfig;
use vhost_user_fs::dax::mib_to_bytes;
use vhost_user_fs::device::{DaxWindow, ShmemRegion, VhostUserFsImpl};
use vhost_user_fs::error::{Fault, PersistError, VhostUserError, VhostUserFsError};
use vhost_user_fs::opening::available_features;
use vhost_user_fs::persist::{
    ExpectedQueues, FsConstructorArgs, VhostUserFsState, VirtioDeviceState,
};
use vhost_user_fs::queue::{Queue, VirtioDeviceType, QUEUE_SIZE};
use vhost_user_fs::request::{
    HostCall, Request, TransferDirection, TransferPhase, VhostCall, VmCall,
};

const FAKE_BLOB: &[u8] = b"fake-backend-state-blob";

fn fault(reason: &str) -> Fault {
    Fault {
        reason: reason.to_string(),
        os_error: None,
    }
}

/// A backend that writes a fake state blob into the memfd on SAVE and reads
/// the memfd on LOAD. All calls are recorded.
struct SnapshotBackend {
    protocol_features: u64,
    memfd: Vec<u8>,
    loaded_blob: Vec<u8>,
    events: Vec<String>,
}

impl SnapshotBackend {
    fn new(protocol_features: VhostUserProtocolFeatures) -> Self {
        SnapshotBackend {
            protocol_features: protocol_features.bits(),
            memfd: Vec::new(),
            loaded_blob: Vec::new(),
            events: Vec::new(),
        }
    }

    fn record(&mut self, event: String) {
        self.events.push(event);
    }

    fn vhost(&mut self, call: &VhostCall) -> u64 {
        match call {
            VhostCall::GetFeatures => available_features(),
            VhostCall::GetProtocolFeatures => {
                self.record("get_protocol_features".to_string());
                self.protocol_features
            }
            VhostCall::SetFeatures { .. } => {
                self.record("set_features".to_string());
                0
            }
            VhostCall::SetMemTable { .. } => {
                self.record("set_mem_table".to_string());
                0
            }
            VhostCall::SetVringNum { index, .. } => {
                self.record(format!("set_vring_num:{index}"));
                0
            }
            VhostCall::SetVringEnable { index, enable } => {
                self.record(format!("set_vring_enable:{index}:{enable}"));
                0
            }
            VhostCall::SetDeviceStateFd { direction, phase } => {
                assert_eq!(*phase, TransferPhase::Stopped);
                match direction {
                    TransferDirection::Save => {
                        self.record("set_device_state_fd:SAVE".to_string());
                        self.memfd.extend_from_slice(FAKE_BLOB);
                    }
                    TransferDirection::Load => {
                        self.record("set_device_state_fd:LOAD".to_string());
                        self.loaded_blob = self.memfd.clone();
                    }
                }
                0
            }
            VhostCall::CheckDeviceState => {
                self.record("check_device_state".to_string());
                0
            }
            _ => 0,
        }
    }

    fn answer(&mut self, request: &Request) -> u64 {
        match request {
            Request::Vhost(call) => self.vhost(call),
            Request::Host(HostCall::CreateMemfd { .. }) => {
                self.memfd.clear();
                3
            }
            Request::WriteMemfd { bytes } => {
                self.memfd.extend_from_slice(bytes);
                0
            }
            _ => 0,
        }
    }

    fn open(&mut self, config: VhostUserFsConfig) -> VhostUserFsImpl {
        let mut opening = VhostUserFsImpl::new(config);
        while let Some(request) = opening.pending() {
            let reply = self.answer(&request);
            opening = opening.complete(Ok(reply));
        }
        opening.finish().unwrap()
    }

    fn activate(&mut self, mut device: VhostUserFsImpl) -> VhostUserFsImpl {
        for queue in device.queues_mut().iter_mut() {
            queue.ready = true;
        }
        let mut activation = device.activate(1, 2);
        loop {
            let reply = match activation.pending() {
                Some(request) => self.answer(request),
                None => break,
            };
            activation = activation.complete(Ok(reply));
        }
        let (device, result) = activation.finish();
        result.unwrap();
        device
    }

    fn finish_capture(
        &mut self,
        mut capture: Capture,
    ) -> (VhostUserFsImpl, Result<(), VhostUserFsError>) {
        loop {
            let reply = match capture.pending() {
                Some(Request::Host(HostCall::ReadMemfd)) => self.memfd.clone(),
                Some(request) => {
                    self.answer(request);
                    Vec::new()
                }
                None => break,
            };
            capture = capture.complete(Ok(reply));
        }
        capture.finish()
    }

    fn restore(
        &mut self,
        vm: Option<u64>,
        state: VhostUserFsState,
    ) -> Result<VhostUserFsImpl, VhostUserFsError> {
        let queues = state.virtio_state.queues.clone();
        let restoring = VhostUserFsImpl::restore(FsConstructorArgs { mem: 1, vm }, state);
        let mut restoration = restoring.queues_built(Ok(queues));
        while let Some(request) = restoration.pending() {
            let reply = match &request {
                Request::Host(HostCall::Mmap(args)) if args.addr == 0 => 0x7f00_0010_0000,
                Request::Host(HostCall::Mmap(args)) => args.addr,
                Request::Vm(VmCall::AllocateGpa { .. }) => 0x99_0000_0000,
                Request::Vm(VmCall::RegisterMemoryRegion { .. }) => {
                    self.record("register".to_string());
                    4
                }
                Request::Host(HostCall::Munmap { addr, len }) => {
                    self.record(format!("munmap:{addr:#x}:{len:#x}"));
                    0
                }
                request => self.answer(request),
            };
            restoration = restoration.complete(Ok(reply));
        }
        restoration.finish()
    }
}

fn config(num_request_queues: u16) -> VhostUserFsConfig {
    VhostUserFsConfig {
        fs_id: "test_fs".to_string(),
        socket: "/tmp/backend.sock".to_string(),
        tag: "test_fs".to_string(),
        num_request_queues,
        dax_window_size_mib: None,
    }
}

/// A device state as a value that can be serialized.
type Plain = (
    String,
    String,
    u16,
    String,
    u64,
    (u64, u64, Vec<(u16, u16, bool, u64, u64, u64, u16, u16)>, bool),
    Vec<u8>,
    Option<u64>,
    Option<u64>,
);

fn to_plain(state: &VhostUserFsState) -> Plain {
    let virtio = &state.virtio_state;
    let queues = virtio
        .queues
        .iter()
        .map(|q| {
            (
                q.max_size,
                q.size,
                q.ready,
                q.desc_table_address,
                q.avail_ring_address,
                q.used_ring_address,
                q.next_avail,
                q.next_used,
            )
        })
        .collect();
    (
        state.id.clone(),
        state.tag.clone(),
        state.num_request_queues,
        state.socket_path.clone(),
        state.vu_acked_protocol_features,
        (
            virtio.avail_features,
            virtio.acked_features,
            queues,
            virtio.activated,
        ),
        state.backend_state.clone(),
        state.dax_window_size_mib,
        state.dax_window_gpa,
    )
}

fn from_plain(plain: Plain) -> VhostUserFsState {
    let (avail_features, acked_features, queues, activated) = plain.5;
    VhostUserFsState {
        id: plain.0,
        tag: plain.1,
        num_request_queues: plain.2,
        socket_path: plain.3,
        vu_acked_protocol_features: plain.4,
        virtio_state: VirtioDeviceState {
            device_type: VirtioDeviceType::Fs,
            avail_features,
            acked_features,
            queues: queues
                .into_iter()
                .map(|q| Queue {
                    max_size: q.0,
                    size: q.1,
                    ready: q.2,
                    desc_table_address: q.3,
                    avail_ring_address: q.4,
                    used_ring_address: q.5,
                    next_avail: q.6,
                    next_used: q.7,
                })
                .collect(),
            activated,
        },
        backend_state: plain.6,
        dax_window_size_mib: plain.7,
        dax_window_gpa: plain.8,
    }
}

fn through_a_file(state: &VhostUserFsState) -> VhostUserFsState {
    let serialized = bitcode::serialize(&to_plain(state)).unwrap();
    from_plain(bitcode::deserialize(&serialized).unwrap())
}

#[test]
fn test_capture_backend_state() {
    let mut backend = SnapshotBackend::new(VhostUserProtocolFeatures::DEVICE_STATE);
    let device = backend.open(config(1));
    assert!(device.snapshot_capable());
    let device = backend.activate(device);

    backend.events.clear();
    let (device, result) = backend.finish_capture(device.capture_backend_state());
    result.unwrap();

    // The capture quiesces the backend (vrings disabled), runs the
    // SAVE transfer, waits for it (check_device_state) and re-enables
    // the vrings so the source VM keeps running.
    assert_eq!(
        backend.events,
        vec![
            "set_vring_enable:0:false".to_string(),
            "set_vring_enable:1:false".to_string(),
            "set_device_state_fd:SAVE".to_string(),
            "check_device_state".to_string(),
            "set_vring_enable:0:true".to_string(),
            "set_vring_enable:1:true".to_string(),
        ]
    );
    assert_eq!(device.backend_state.as_deref(), Some(FAKE_BLOB));

    // The captured blob is embedded in the device state.
    let state = device.save();
    assert_eq!(state.id, "test_fs");
    assert_eq!(state.tag, "test_fs");
    assert_eq!(state.num_request_queues, 1);
    assert_eq!(state.socket_path, device.vu_handle.socket_path);
    assert_eq!(
        state.vu_acked_protocol_features,
        VhostUserProtocolFeatures::DEVICE_STATE.bits()
    );
    assert_eq!(state.backend_state, FAKE_BLOB);
    assert_eq!(state.virtio_state.queues.len(), 2);
    assert!(state.virtio_state.activated);
}

#[test]
fn test_capture_backend_state_not_negotiated() {
    // A backend that did not ack DEVICE_STATE fails the capture
    // cleanly, without touching the vrings and without a panic.
    let mut backend = SnapshotBackend::new(VhostUserProtocolFeatures::empty());
    let device = backend.open(config(1));
    assert!(!device.snapshot_capable());
    let device = backend.activate(device);

    backend.events.clear();
    let (device, result) = backend.finish_capture(device.capture_backend_state());
    assert!(matches!(
        result,
        Err(VhostUserFsError::DeviceStateNotNegotiated)
    ));
    assert!(device.backend_state.is_none());
    assert!(!backend
        .events
        .iter()
        .any(|event| event.starts_with("set_device_state_fd")));
    assert!(backend.events.is_empty());
}

#[test]
fn test_capture_backend_state_inactive() {
    // A device that was never activated has no backend state to
    // capture; the snapshot carries an empty blob.
    let mut backend = SnapshotBackend::new(VhostUserProtocolFeatures::DEVICE_STATE);
    let device = backend.open(config(1));
    let (device, result) = backend.finish_capture(device.capture_backend_state());
    result.unwrap();
    assert!(device.backend_state.is_none());
    assert!(device.save().backend_state.is_empty());
}

#[test]
fn test_restore_loads_backend_state_before_vring_enable() {
    // Fabricate a device state carrying a backend blob. The device is
    // activated first so the saved queues are ready (as a real
    // snapshot's would be).
    let mut backend = SnapshotBackend::new(VhostUserProtocolFeatures::DEVICE_STATE);
    let device = backend.open(config(1));
    let device = backend.activate(device);
    let mut state = device.save();
    state.socket_path = "/tmp/backend2.sock".to_string();
    state.backend_state = FAKE_BLOB.to_vec();
    let state = through_a_file(&state);

    let mut backend = SnapshotBackend::new(VhostUserProtocolFeatures::DEVICE_STATE);
    let restored = backend.restore(None, state).unwrap();
    assert_eq!(restored.backend_state.as_deref(), Some(FAKE_BLOB));
    assert!(!restored.is_activated());
    assert_eq!(restored.vu_handle.socket_path, "/tmp/backend2.sock");

    // On activation the blob must be loaded into the fresh backend
    // before the memory table and vrings are set up and enabled.
    backend.events.clear();
    let restored = backend.activate(restored);
    let events = backend.events.clone();
    let event_index = |name: &str| {
        events
            .iter()
            .position(|event| event == name)
            .unwrap_or_else(|| panic!("missing event {name} in {events:?}"))
    };
    let load_index = event_index("set_device_state_fd:LOAD");
    assert!(event_index("set_features") < load_index);
    assert_eq!(event_index("check_device_state"), load_index + 1);
    assert!(load_index < event_index("set_mem_table"));
    assert!(load_index < event_index("set_vring_enable:0:true"));
    assert!(load_index < event_index("set_vring_enable:1:true"));

    // The backend received exactly the blob from the snapshot, and the
    // device consumed its stashed copy.
    assert_eq!(backend.loaded_blob.as_slice(), FAKE_BLOB);
    assert!(restored.backend_state.is_none());
    assert!(restored.is_activated());
    assert_eq!(restored.id, "test_fs");
    assert_eq!(restored.num_request_queues, 1);
}

#[test]
fn test_activate_fences_vring_enable_before_resume() {
    // The backend drops any kick its worker consumes before SET_VRING_ENABLE
    // is processed. Activation must therefore close the enable window
    // with a reply-forcing round trip AFTER the last SET_VRING_ENABLE.
    let mut backend = SnapshotBackend::new(VhostUserProtocolFeatures::DEVICE_STATE);
    let device = backend.open(config(1));
    backend.events.clear();
    backend.activate(device);
    let events = backend.events;
    let last_enable = events
        .iter()
        .rposition(|event| event.starts_with("set_vring_enable"))
        .unwrap_or_else(|| panic!("no set_vring_enable in {events:?}"));
    let fence = events
        .iter()
        .rposition(|event| event == "get_protocol_features")
        .unwrap_or_else(|| panic!("missing fence get_protocol_features in {events:?}"));
    assert!(
        fence > last_enable,
        "the enable fence must follow the last set_vring_enable: {events:?}"
    );
    assert_eq!(
        fence,
        events.len() - 1,
        "the fence closes activate(): {events:?}"
    );
}

#[test]
fn test_restore_without_device_state_fails() {
    // Fabricate a device state carrying a backend blob (captured while
    // DEVICE_STATE was available).
    let mut backend = SnapshotBackend::new(VhostUserProtocolFeatures::DEVICE_STATE);
    let device = backend.open(config(1));
    let mut state = device.save();
    state.socket_path = "/tmp/backend2.sock".to_string();
    state.backend_state = FAKE_BLOB.to_vec();

    // The fresh backend does not advertise DEVICE_STATE, so the blob
    // cannot be loaded and the restore fails cleanly.
    let mut backend = SnapshotBackend::new(VhostUserProtocolFeatures::empty());
    let result = backend.restore(None, through_a_file(&state));
    assert!(matches!(
        result,
        Err(VhostUserFsError::DeviceStateNotNegotiated)
    ));

    // A state without a backend blob restores fine against the same
    // backend (nothing to load).
    state.backend_state = Vec::new();
    let restored = backend.restore(None, state).unwrap();
    assert!(restored.backend_state.is_none());
}

#[test]
fn test_fs_state_serde_roundtrip() {
    let state = VhostUserFsState {
        id: "fs0".to_string(),
        tag: "my_tag".to_string(),
        num_request_queues: 3,
        socket_path: "/tmp/backend.sock".to_string(),
        vu_acked_protocol_features: VhostUserProtocolFeatures::DEVICE_STATE.bits(),
        virtio_state: VirtioDeviceState {
            device_type: VirtioDeviceType::Fs,
            avail_features: 0x69,
            acked_features: 0x42,
            queues: vec![],
            activated: true,
        },
        backend_state: b"backend-state-blob".to_vec(),
        dax_window_size_mib: None,
        dax_window_gpa: None,
    };

    let args = FsConstructorArgs { mem: 1, vm: None };
    let restored = VhostUserFsImpl::restore(args, through_a_file(&state)).state;

    assert_eq!(restored.id, state.id);
    assert_eq!(restored.tag, state.tag);
    assert_eq!(restored.num_request_queues, state.num_request_queues);
    assert_eq!(restored.socket_path, state.socket_path);
    assert_eq!(
        restored.vu_acked_protocol_features,
        state.vu_acked_protocol_features
    );
    assert_eq!(restored.virtio_state, state.virtio_state);
    assert_eq!(restored.backend_state, state.backend_state);
}

/// Answers a capture, with a fault at each of the given places, and returns
/// what was asked.
fn capture_with_faults(
    device: VhostUserFsImpl,
    faults: &[usize],
) -> (VhostUserFsImpl, Result<(), VhostUserFsError>, Vec<String>) {
    let mut capture = device.capture_backend_state();
    let mut asked = Vec::new();
    let mut at = 0;
    loop {
        let reply = match capture.pending() {
            None => break,
            Some(request) => {
                asked.push(format!("{request:?}"));
                if faults.contains(&at) {
                    Err(fault("no"))
                } else if *request == Request::Host(HostCall::ReadMemfd) {
                    Ok(b"blob".to_vec())
                } else {
                    Ok(Vec::new())
                }
            }
        };
        capture = capture.complete(reply);
        at += 1;
    }
    let (device, result) = capture.finish();
    (device, result, asked)
}

fn active_device(backend: &mut SnapshotBackend, num_request_queues: u16) -> VhostUserFsImpl {
    let device = backend.open(config(num_request_queues));
    backend.activate(device)
}

#[test]
fn failed_capture_enables_the_vrings_again() {
    let vring = || {
        VhostUserFsError::VhostUser(VhostUserError::VhostUserSetVringEnable(fault("no")))
    };
    let errors = [
        vring(),
        vring(),
        VhostUserFsError::Memfd(fault("no")),
        VhostUserFsError::DeviceStateTransfer(fault("no")),
        VhostUserFsError::VhostUser(VhostUserError::VhostUserSetDeviceStateFd(fault("no"))),
        VhostUserFsError::VhostUser(VhostUserError::VhostUserCheckDeviceState(fault("no"))),
        VhostUserFsError::DeviceStateTransfer(fault("no")),
        VhostUserFsError::DeviceStateTransfer(fault("no")),
    ];
    for (place, expected) in errors.into_iter().enumerate() {
        let mut backend = SnapshotBackend::new(VhostUserProtocolFeatures::DEVICE_STATE);
        let device = active_device(&mut backend, 1);
        let (device, result, asked) = capture_with_faults(device, &[place]);
        assert_eq!(result, Err(expected));
        assert_eq!(device.backend_state, None);
        assert!(device.is_activated());
        assert_eq!(asked.len(), place + 3);
        assert_eq!(
            asked[place + 1..],
            [
                "Vhost(SetVringEnable { index: 0, enable: true })".to_string(),
                "Vhost(SetVringEnable { index: 1, enable: true })".to_string(),
            ]
        );
    }
}

#[test]
fn failed_resume_keeps_the_blob() {
    let mut backend = SnapshotBackend::new(VhostUserProtocolFeatures::DEVICE_STATE);
    let device = active_device(&mut backend, 1);
    // The first vring cannot be enabled again: the second is not tried.
    let (device, result, asked) = capture_with_faults(device, &[8]);
    assert_eq!(
        result,
        Err(VhostUserFsError::VhostUser(
            VhostUserError::VhostUserSetVringEnable(fault("no"))
        ))
    );
    assert_eq!(device.backend_state, Some(b"blob".to_vec()));
    assert_eq!(asked.len(), 9);
}

#[test]
fn capture_error_comes_before_resume_error() {
    let mut backend = SnapshotBackend::new(VhostUserProtocolFeatures::DEVICE_STATE);
    let device = active_device(&mut backend, 1);
    let (device, result, asked) = capture_with_faults(device, &[2, 3]);
    assert_eq!(result, Err(VhostUserFsError::Memfd(fault("no"))));
    assert_eq!(device.backend_state, None);
    // The first vring is tried, the second is not.
    assert_eq!(asked.len(), 4);
    assert_eq!(asked[3], "Vhost(SetVringEnable { index: 0, enable: true })");
}

#[test]
fn capture_forgets_an_old_blob() {
    let mut backend = SnapshotBackend::new(VhostUserProtocolFeatures::DEVICE_STATE);
    let mut device = backend.open(config(1));
    device.backend_state = Some(vec![1]);
    let (device, result) = backend.finish_capture(device.capture_backend_state());
    result.unwrap();
    assert_eq!(device.backend_state, None);
}

#[test]
fn captured_blob_reaches_the_fresh_backend() {
    let mut backend = SnapshotBackend::new(VhostUserProtocolFeatures::DEVICE_STATE);
    let mut device = active_device(&mut backend, 2);
    device.set_acked_features(available_features());
    let (device, result) = backend.finish_capture(device.capture_backend_state());
    result.unwrap();
    let state = device.save();

    let mut fresh = SnapshotBackend::new(VhostUserProtocolFeatures::DEVICE_STATE);
    let restored = fresh.restore(None, state).unwrap();
    assert_eq!(restored.acked_features, available_features());
    assert_eq!(restored.config_space, device.config_space);
    assert_eq!(restored.queues, device.queues);
    let restored = fresh.activate(restored);
    assert_eq!(fresh.loaded_blob, FAKE_BLOB);
    assert_eq!(restored.backend_state, None);
}

#[test]
fn queues_must_be_built_as_expected() {
    let mut backend = SnapshotBackend::new(VhostUserProtocolFeatures::DEVICE_STATE);
    let state = backend.open(config(4)).save();
    let args = FsConstructorArgs { mem: 7, vm: None };
    let restoring = VhostUserFsImpl::restore(args, state);
    assert_eq!(
        restoring.expected,
        ExpectedQueues {
            mem: 7,
            device_type: VirtioDeviceType::Fs,
            num_queues: 5,
            max_size: QUEUE_SIZE,
        }
    );
    let restoration = restoring.queues_built(Err(PersistError::Queue(fault("no"))));
    assert_eq!(restoration.pending(), None);
    assert_eq!(
        restoration.finish().err().unwrap(),
        VhostUserFsError::VirtioState(PersistError::Queue(fault("no")))
    );

    // One queue too few: the backend is not connected to.
    let state = backend.open(config(4)).save();
    let restoration =
        VhostUserFsImpl::restore(args, state).queues_built(Ok(vec![Queue::new(QUEUE_SIZE); 4]));
    assert_eq!(restoration.pending(), None);
    assert_eq!(
        restoration.finish().err(),
        Some(VhostUserFsError::VirtioState(PersistError::InvalidInput))
    );
}

#[test]
fn restored_features_must_be_covered() {
    let mut backend = SnapshotBackend::new(VhostUserProtocolFeatures::DEVICE_STATE);
    let mut state = backend.open(config(1)).save();
    state.virtio_state.acked_features = available_features() | 1;
    assert_eq!(
        backend.restore(None, state).err().unwrap(),
        VhostUserFsError::VirtioState(PersistError::InvalidInput)
    );
}

#[test]
fn unreachable_backend_fails_the_restore() {
    let mut backend = SnapshotBackend::new(VhostUserProtocolFeatures::DEVICE_STATE);
    let state = backend.open(config(1)).save();
    let args = FsConstructorArgs { mem: 7, vm: None };
    let queues = state.virtio_state.queues.clone();
    let restoration = VhostUserFsImpl::restore(args, state).queues_built(Ok(queues));
    let restoration = restoration.complete(Err(fault("refused")));
    assert_eq!(
        restoration.finish().err().unwrap(),
        VhostUserFsError::VhostUser(VhostUserError::Connect(fault("refused")))
    );
}

fn state_with_window(gpa: Option<u64>) -> VhostUserFsState {
    let mut backend = SnapshotBackend::new(VhostUserProtocolFeatures::all());
    let mut config = config(1);
    config.dax_window_size_mib = Some(4);
    let mut device = backend.open(config);
    if let Some(gpa) = gpa {
        device.dax_window = Some(DaxWindow {
            memfd: 5,
            host_addr: 0x20_0000,
            gpa,
            size: mib_to_bytes(4),
            kvm_slot: 1,
        });
        device.shmem_region = Some(ShmemRegion {
            id: 0,
            len: mib_to_bytes(4),
            gpa,
        });
    }
    device.save()
}

#[test]
fn window_is_restored_where_it_was() {
    let state = state_with_window(Some(0x80_0000_0000));
    assert_eq!(state.dax_window_gpa, Some(0x80_0000_0000));
    let mut backend = SnapshotBackend::new(VhostUserProtocolFeatures::all());
    let restored = backend.restore(Some(1), through_a_file(&state)).unwrap();
    assert_eq!(
        restored.dax_window,
        Some(DaxWindow {
            memfd: 3,
            host_addr: 0x7f00_0020_0000,
            gpa: 0x80_0000_0000,
            size: 0x40_0000,
            kvm_slot: 4,
        })
    );
    assert_eq!(
        restored.shmem_regions(),
        &[ShmemRegion {
            id: 0,
            len: 0x40_0000,
            gpa: 0x80_0000_0000
        }]
    );
}

#[test]
fn window_needs_a_vm_and_its_address() {
    let mut backend = SnapshotBackend::new(VhostUserProtocolFeatures::all());
    assert_eq!(
        backend
            .restore(None, state_with_window(Some(0x80_0000_0000)))
            .err().unwrap(),
        VhostUserFsError::DaxWindowGpaMismatch
    );
    // Without a persisted address the window comes to lie elsewhere.
    assert_eq!(
        backend
            .restore(Some(1), state_with_window(None))
            .err().unwrap(),
        VhostUserFsError::DaxWindowGpaMismatch
    );
}

#[test]
fn refused_window_is_given_back() {
    let munmap = "munmap:0x7f0000200000:0x400000".to_string();
    let window = Some(0x80_0000_0000);

    // No persisted address.
    let mut backend = SnapshotBackend::new(VhostUserProtocolFeatures::all());
    let result = backend.restore(Some(1), state_with_window(None));
    assert_eq!(result.err(), Some(VhostUserFsError::DaxWindowGpaMismatch));
    assert_eq!(backend.events.last(), Some(&munmap));

    // Features that are not covered.
    let mut state = state_with_window(window);
    state.virtio_state.acked_features = 1;
    let result = backend.restore(Some(1), state);
    assert_eq!(
        result.err(),
        Some(VhostUserFsError::VirtioState(PersistError::InvalidInput))
    );
    assert_eq!(
        backend.events[backend.events.len() - 2..],
        ["register".to_string(), munmap.clone()]
    );

    // A blob that the backend cannot take.
    let mut state = state_with_window(window);
    state.backend_state = FAKE_BLOB.to_vec();
    let mut backend = SnapshotBackend::new(VhostUserProtocolFeatures::empty());
    let result = backend.restore(Some(1), state);
    assert_eq!(
        result.err(),
        Some(VhostUserFsError::DeviceStateNotNegotiated)
    );
    assert_eq!(backend.events.last(), Some(&munmap));

    // A device that can be used keeps its window.
    let mut backend = SnapshotBackend::new(VhostUserProtocolFeatures::all());
    assert!(backend.restore(Some(1), state_with_window(window)).is_ok());
    assert_eq!(backend.events.last(), Some(&"register".to_string()));
}

#[test]
fn window_of_any_size_needs_a_vm() {
    let mut state = state_with_window(Some(0x80_0000_0000));
    state.dax_window_size_mib = Some(0xfff_ffff_fffe);
    let mut backend = SnapshotBackend::new(VhostUserProtocolFeatures::all());
    assert_eq!(
        backend.restore(None, state.clone()).err(),
        Some(VhostUserFsError::DaxWindowGpaMismatch)
    );
    // Nor does the size matter where the queues cannot be built.
    let args = FsConstructorArgs { mem: 7, vm: None };
    let restoration =
        VhostUserFsImpl::restore(args, state).queues_built(Err(PersistError::InvalidInput));
    assert_eq!(
        restoration.finish().err(),
        Some(VhostUserFsError::VirtioState(PersistError::InvalidInput))
    );
}

#[test]
fn restored_device_saves_the_same() {
    let state = state_with_window(Some(0x80_0000_0000));
    let mut backend = SnapshotBackend::new(VhostUserProtocolFeatures::all());
    let restored = backend.restore(Some(1), state.clone()).unwrap();
    assert_eq!(restored.save(), state);
}

#[test]
fn copies_hold_the_same_values() {
    let state = state_with_window(Some(0x80_0000_0000));
    let copy = state.clone();
    assert_eq!(copy, state);
    assert_eq!(copy.virtio_state.queues.len(), 2);
    let mut backend = SnapshotBackend::new(VhostUserProtocolFeatures::empty());
    let config = backend.open(config(3)).config();
    assert_eq!(config.clone(), config);
}
