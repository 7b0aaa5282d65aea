//! Creating, activating and reading a device, against a backend that records
//! what it is asked.

use vhost::vhost_user::message::{VhostUserProtocolFeatures, VhostUserVirtioFeatures};
use vhost_user_fs::activate::Activation;
use vhost_user_fs::config::{FsDeviceConfig, VhostUserFsConfig, DEFAULT_NUM_REQUEST_QUEUES};
use vhost_user_fs::config_space::{build_config_space, FS_CONFIG_SPACE_SIZE, TAG_LEN};
use vhost_user_fs::device::{
    ActiveState, DaxWindow, DeviceState, ShmemRegion, StopActions, VhostUserFsImpl,
};
use vhost_user_fs::error::{ActivateError, Fault, VhostUserError, VhostUserFsError};
use vhost_user_fs::opening::available_features;
use vhost_user_fs::queue::{Queue, VirtioDeviceType, QUEUE_SIZE};
use vhost_user_fs::request::{
    HostCall, MemfdName, Request, TransferDirection, TransferPhase, VhostCall, VmCall,
};

fn fault(reason: &str) -> Fault {
    Fault {
        reason: reason.to_string(),
        os_error: None,
    }
}

/// A host with a backend of the given features. Handles count up from 100.
struct Backend {
    features: u64,
    protocol_features: u64,
    is_owner: bool,
    hdr_flags: u32,
    socket: String,
    max_queue_num: u64,
    handles: u64,
    requests: Vec<String>,
}

impl Backend {
    fn new(features: u64, protocol_features: u64) -> Self {
        Backend {
            features,
            protocol_features,
            is_owner: false,
            hdr_flags: 0,
            socket: String::new(),
            max_queue_num: 0,
            handles: 100,
            requests: Vec::new(),
        }
    }

    fn answer(&mut self, request: &Request) -> Result<u64, Fault> {
        self.requests.push(format!("{request:?}"));
        match request {
            Request::Connect { socket, num_queues } => {
                self.socket = socket.clone();
                self.max_queue_num = *num_queues;
                Ok(0)
            }
            Request::Vhost(VhostCall::SetOwner) => {
                self.is_owner = true;
                Ok(0)
            }
            Request::Vhost(VhostCall::GetFeatures) => Ok(self.features),
            Request::Vhost(VhostCall::GetProtocolFeatures) => Ok(self.protocol_features),
            Request::Vhost(VhostCall::SetHdrFlags { flags }) => {
                self.hdr_flags = *flags;
                Ok(0)
            }
            Request::Host(HostCall::CreateEventFd { flags }) => {
                assert_eq!(*flags, 0x800);
                self.handles += 1;
                Ok(self.handles)
            }
            Request::Host(HostCall::SpawnReqThread) => Ok(77),
            _ => Ok(0),
        }
    }

    fn open(&mut self, config: VhostUserFsConfig) -> Result<VhostUserFsImpl, VhostUserFsError> {
        let mut opening = VhostUserFsImpl::new(config);
        while let Some(request) = opening.pending() {
            let reply = self.answer(&request);
            opening = opening.complete(reply);
        }
        opening.finish()
    }
}

fn config(tag: &str, num_request_queues: u16) -> VhostUserFsConfig {
    VhostUserFsConfig {
        fs_id: "test_fs".to_string(),
        socket: "/tmp/backend.sock".to_string(),
        tag: tag.to_string(),
        num_request_queues,
        dax_window_size_mib: None,
    }
}

/// Answers every call of an activation, and returns what was asked.
fn succeed(mut activation: Activation) -> (VhostUserFsImpl, Vec<Request>) {
    let mut asked = Vec::new();
    loop {
        let handle = match activation.pending() {
            None => break,
            Some(Request::Host(HostCall::CreateEventFd { flags })) => {
                asked.push(Request::Host(HostCall::CreateEventFd { flags: *flags }));
                55
            }
            Some(Request::Host(call)) => {
                asked.push(Request::Host(*call));
                66
            }
            Some(Request::Vhost(call)) => {
                asked.push(Request::Vhost(*call));
                0
            }
            Some(Request::Vm(call)) => {
                asked.push(Request::Vm(*call));
                0
            }
            Some(Request::WriteMemfd { bytes }) => {
                asked.push(Request::WriteMemfd {
                    bytes: bytes.clone(),
                });
                0
            }
            Some(other) => panic!("unexpected {other:?}"),
        };
        activation = activation.complete(Ok(handle));
    }
    let (device, result) = activation.finish();
    result.unwrap();
    (device, asked)
}

/// Fails the call at the given place of an activation.
fn fail_at(mut activation: Activation, place: usize) -> (VhostUserFsImpl, ActivateError) {
    let mut at = 0;
    while activation.pending().is_some() {
        let reply = if at == place { Err(fault("no")) } else { Ok(9) };
        activation = activation.complete(reply);
        at += 1;
    }
    let (device, result) = activation.finish();
    (device, result.unwrap_err())
}

#[test]
fn test_from_config() {
    // Tag and request queue count fall back to defaults.
    let fs_config = FsDeviceConfig {
        fs_id: "test_fs".to_string(),
        socket: "sock".to_string(),
        tag: None,
        num_request_queues: None,
        dax_window_size_mib: None,
    };
    let config = VhostUserFsConfig::from(&fs_config);
    assert_eq!(config.fs_id, "test_fs");
    assert_eq!(config.socket, "sock");
    assert_eq!(config.tag, "test_fs");
    assert_eq!(config.num_request_queues, DEFAULT_NUM_REQUEST_QUEUES);

    // Explicit values are kept as-is.
    let fs_config = FsDeviceConfig {
        fs_id: "test_fs".to_string(),
        socket: "sock".to_string(),
        tag: Some("my_tag".to_string()),
        num_request_queues: Some(4),
        dax_window_size_mib: None,
    };
    let config = VhostUserFsConfig::from(&fs_config);
    assert_eq!(config.tag, "my_tag");
    assert_eq!(config.num_request_queues, 4);
}

#[test]
fn test_config_space() {
    // Default tag and request queue count.
    let config_space = build_config_space("test_fs", 1);
    assert_eq!(config_space.len(), FS_CONFIG_SPACE_SIZE);
    assert_eq!(&config_space[..7], b"test_fs");
    assert_eq!(&config_space[7..TAG_LEN], &[0u8; TAG_LEN - 7]);
    assert_eq!(&config_space[TAG_LEN..], &1u16.to_le_bytes());

    // A tag of 35 bytes is not truncated.
    let tag = "a".repeat(TAG_LEN - 1);
    let config_space = build_config_space(&tag, 2);
    assert_eq!(&config_space[..TAG_LEN - 1], tag.as_bytes());
    assert_eq!(config_space[TAG_LEN - 1], 0);
    assert_eq!(&config_space[TAG_LEN..], &2u16.to_le_bytes());

    // A tag longer than 35 bytes is truncated and NUL-terminated.
    let tag = "a".repeat(2 * TAG_LEN);
    let config_space = build_config_space(&tag, 2);
    assert_eq!(&config_space[..TAG_LEN - 1], &tag.as_bytes()[..TAG_LEN - 1]);
    assert_eq!(config_space[TAG_LEN - 1], 0);
}

#[test]
fn test_new_no_features() {
    let mut backend = Backend::new(0, 0);
    let vhost_fs = backend.open(config("test_fs", 1)).unwrap();

    // If backend has no features, nothing should be negotiated and
    // no flags should be set. The config space is built locally, so it
    // is populated regardless of the backend features.
    assert_eq!(backend.socket, "/tmp/backend.sock");
    assert_eq!(backend.max_queue_num, 2);
    assert!(backend.is_owner);
    assert_eq!(vhost_fs.avail_features, 0);
    assert_eq!(vhost_fs.acked_features, 0);
    assert_eq!(vhost_fs.vu_acked_protocol_features, 0);
    assert!(!vhost_fs.snapshot_capable());
    assert_eq!(backend.hdr_flags, 0);
    assert_eq!(vhost_fs.config_space, build_config_space("test_fs", 1));
}

#[test]
fn test_new_all_features() {
    let mut backend = Backend::new(
        available_features(),
        VhostUserProtocolFeatures::all().bits(),
    );
    let mut vhost_fs = backend.open(config("my_tag", 3)).unwrap();

    // If backend has all features, features offered by the fs device
    // should be negotiated. DEVICE_STATE is the only requested protocol
    // feature, and the backend advertises it, so it is acked.
    assert_eq!(backend.max_queue_num, 4);
    assert!(backend.is_owner);
    assert_eq!(vhost_fs.avail_features, available_features());
    assert_eq!(
        vhost_fs.acked_features,
        VhostUserVirtioFeatures::PROTOCOL_FEATURES.bits()
    );
    assert_eq!(
        vhost_fs.vu_acked_protocol_features,
        VhostUserProtocolFeatures::DEVICE_STATE.bits()
    );
    assert!(vhost_fs.snapshot_capable());
    assert_eq!(backend.hdr_flags, 0);

    // The hiprio queue at index 0 plus the request queues.
    assert_eq!(vhost_fs.queues().len(), 4);
    assert_eq!(vhost_fs.queue_events().len(), 4);
    assert!(vhost_fs
        .queues()
        .iter()
        .all(|q| q.max_size == QUEUE_SIZE && q.size == QUEUE_SIZE));

    assert_eq!(vhost_fs.config_space, build_config_space("my_tag", 3));

    // Test some device methods
    assert_eq!(vhost_fs.avail_features(), available_features());
    assert_eq!(
        vhost_fs.acked_features(),
        VhostUserVirtioFeatures::PROTOCOL_FEATURES.bits()
    );

    // Valid read
    let mut read_config = vec![0; FS_CONFIG_SPACE_SIZE];
    vhost_fs.read_config(0, &mut read_config);
    assert_eq!(read_config, build_config_space("my_tag", 3));

    // Invalid offset
    let mut read_config = vec![0; FS_CONFIG_SPACE_SIZE];
    vhost_fs.read_config(0x1000, &mut read_config);
    assert_eq!(read_config, vec![0; FS_CONFIG_SPACE_SIZE]);

    // Writing to the config does nothing
    vhost_fs.write_config(0, &[0x69; FS_CONFIG_SPACE_SIZE]);
    assert_eq!(vhost_fs.config_space, build_config_space("my_tag", 3));

    // A tag longer than the config space tag field is truncated and
    // NUL-terminated.
    let vhost_fs = backend.open(config(&"t".repeat(2 * TAG_LEN), 1)).unwrap();
    assert_eq!(vhost_fs.tag.len(), 2 * TAG_LEN);
    assert_eq!(
        vhost_fs.config_space,
        build_config_space(&"t".repeat(2 * TAG_LEN), 1)
    );

    // The device configuration can be retrieved for introspection.
    let config = vhost_fs.config();
    assert_eq!(config.fs_id, "test_fs");
    assert_eq!(config.tag, Some("t".repeat(2 * TAG_LEN)));
    assert_eq!(config.num_request_queues, Some(1));
}

#[test]
fn test_activate() {
    // Fs device creation
    let mut backend = Backend::new(0, 0);
    let mut vhost_fs = backend.open(config("test_fs", 2)).unwrap();
    assert_eq!(vhost_fs.queues().len(), 3);
    for (i, queue) in vhost_fs.queues_mut().iter_mut().enumerate() {
        queue.size = 16;
        queue.ready = true;
        queue.desc_table_address = (i * 0x2000) as u64;
    }

    // During activation of the device features, memory and all queues
    // (the hiprio queue at index 0 and the request queues after it)
    // should be set and activated.
    let (vhost_fs, asked) = succeed(vhost_fs.activate(1, 2));
    assert!(asked.contains(&Request::Vhost(VhostCall::SetFeatures { features: 0 })));
    assert!(asked.contains(&Request::Vhost(VhostCall::SetMemTable { mem: 1 })));
    let vrings_enabled: Vec<usize> = asked
        .iter()
        .filter_map(|request| match request {
            Request::Vhost(VhostCall::SetVringEnable { index, .. }) => Some(*index),
            _ => None,
        })
        .collect();
    assert_eq!(vrings_enabled, &[0, 1, 2]);
    assert!(vhost_fs.is_activated());
}

#[test]
fn dax_needs_more_protocol_features() {
    let mut backend = Backend::new(
        available_features(),
        VhostUserProtocolFeatures::all().bits(),
    );
    let mut config = config("tag", 1);
    config.dax_window_size_mib = Some(2);
    let device = backend.open(config).unwrap();
    assert_eq!(device.vu_acked_protocol_features, 0x48_0028);
    // Acknowledgements were negotiated, so requests ask for them.
    assert_eq!(backend.hdr_flags, 8);
    assert_eq!(
        backend.requests[4..6],
        [
            "Vhost(SetProtocolFeatures { features: 4718632 })".to_string(),
            "Vhost(SetHdrFlags { flags: 8 })".to_string(),
        ]
    );
}

#[test]
fn supported_features_are_three_bits() {
    assert_eq!(available_features(), 0x1_6000_0000);
    // What the frontend does not support is not negotiated.
    let mut backend = Backend::new(u64::MAX, 0);
    let device = backend.open(config("tag", 1)).unwrap();
    assert_eq!(device.avail_features, 0x1_6000_0000);
    assert_eq!(device.acked_features, 0x4000_0000);
    assert_eq!(device.vu_acked_protocol_features, 0);
}

#[test]
fn creation_fails_where_a_call_fails() {
    let errors = [
        VhostUserFsError::VhostUser(VhostUserError::Connect(fault("no"))),
        VhostUserFsError::VhostUser(VhostUserError::VhostUserSetOwner(fault("no"))),
        VhostUserFsError::VhostUser(VhostUserError::VhostUserGetFeatures(fault("no"))),
        VhostUserFsError::VhostUser(VhostUserError::VhostUserGetProtocolFeatures(fault("no"))),
        VhostUserFsError::VhostUser(VhostUserError::VhostUserSetProtocolFeatures(fault("no"))),
        VhostUserFsError::EventFd(fault("no")),
        VhostUserFsError::EventFd(fault("no")),
        VhostUserFsError::EventFd(fault("no")),
    ];
    for (place, error) in errors.into_iter().enumerate() {
        let mut backend = Backend::new(available_features(), 0);
        let mut opening = VhostUserFsImpl::new(config("tag", 1));
        let mut at = 0;
        while let Some(request) = opening.pending() {
            let reply = if at == place {
                Err(fault("no"))
            } else {
                backend.answer(&request)
            };
            opening = opening.complete(reply);
            at += 1;
        }
        assert_eq!(opening.finish().err(), Some(error));
        assert_eq!(at, place + 1);
    }
}

#[test]
fn eventfds_are_kept_in_order() {
    let mut backend = Backend::new(0, 0);
    let device = backend.open(config("tag", 2)).unwrap();
    assert_eq!(device.activate_evt, 101);
    assert_eq!(device.queue_events(), &[102, 103, 104]);
    assert_eq!(device.queues(), &[Queue::new(256); 3]);
    assert_eq!(device.device_type(), VirtioDeviceType::Fs);
    assert_eq!(device.id(), "test_fs");
    // A device without request queues still has the hiprio queue.
    let device = backend.open(config("tag", 0)).unwrap();
    assert_eq!(device.queue_events().len(), 1);
}

#[test]
fn reported_configuration_creates_the_same_device() {
    let mut backend = Backend::new(0, 0);
    let device = backend.open(config("tag", 7)).unwrap();
    let again = VhostUserFsConfig::from(&device.config());
    assert_eq!(again, config("tag", 7));
    assert_eq!(again.metrics_name(), "fs_test_fs");
    assert_eq!(again.num_queues(), 8);
}

#[test]
fn default_configuration_is_empty() {
    let config = FsDeviceConfig::default();
    assert_eq!(config.fs_id, "");
    assert_eq!(config.socket, "");
    assert_eq!(config.tag, None);
    assert_eq!(config.num_request_queues, None);
    assert_eq!(config.dax_window_size_mib, None);
}

#[test]
fn config_space_reads_back() {
    // Two different tags that fit give different config spaces, and the
    // number of request queues is little-endian.
    assert_ne!(build_config_space("a", 1), build_config_space("b", 1));
    let space = build_config_space("tag", 0x1234);
    assert_eq!(space[36], 0x34);
    assert_eq!(space[37], 0x12);
    // Bytes count, not characters: the cut may fall inside one.
    let space = build_config_space(&"é".repeat(20), 1);
    assert_eq!(&space[..35], &"é".repeat(20).as_bytes()[..35]);
    assert_eq!(space[35], 0);
}

#[test]
fn config_space_is_read_in_part() {
    let mut backend = Backend::new(0, 0);
    let device = backend.open(config("tag", 5)).unwrap();
    let mut data = vec![0xff; 4];
    device.read_config(36, &mut data);
    assert_eq!(data, vec![5, 0, 0xff, 0xff]);
    let mut data = vec![0xff; 2];
    device.read_config(0, &mut data);
    assert_eq!(data, b"ta".to_vec());
    assert_eq!(device.config_as_bytes().len(), 38);
}

#[test]
fn activation_asks_for_everything_in_order() {
    let mut backend = Backend::new(0, 0);
    let mut device = backend.open(config("tag", 0)).unwrap();
    device.set_acked_features(3);
    device.backend_state = Some(vec![1, 2, 3]);
    let queue = device.queues[0];
    let (device, asked) = succeed(device.activate(11, 22));
    assert_eq!(
        asked,
        vec![
            Request::Vm(VmCall::InitializeQueue { index: 0, mem: 11 }),
            Request::Vhost(VhostCall::SetFeatures { features: 3 }),
            Request::Host(HostCall::CreateMemfd {
                name: MemfdName::State
            }),
            Request::WriteMemfd {
                bytes: vec![1, 2, 3]
            },
            Request::Host(HostCall::RewindMemfd),
            Request::Vhost(VhostCall::SetDeviceStateFd {
                direction: TransferDirection::Load,
                phase: TransferPhase::Stopped,
            }),
            Request::Vhost(VhostCall::CheckDeviceState),
            Request::Vhost(VhostCall::SetMemTable { mem: 11 }),
            Request::Vhost(VhostCall::SetVringNum { index: 0, num: 256 }),
            Request::Vhost(VhostCall::SetVringAddr { index: 0, queue }),
            Request::Vhost(VhostCall::SetVringBase { index: 0, queue }),
            Request::Vhost(VhostCall::SetVringCall {
                index: 0,
                interrupt: 22
            }),
            Request::Vhost(VhostCall::SetVringKick { index: 0, evt: 102 }),
            Request::Vhost(VhostCall::SetVringEnable {
                index: 0,
                enable: true
            }),
            Request::Vhost(VhostCall::GetProtocolFeatures),
        ]
    );
    assert_eq!(
        device.device_state,
        DeviceState::Activated(ActiveState {
            mem: 11,
            interrupt: 22
        })
    );
    assert_eq!(device.interrupt_trigger(), 22);
    assert_eq!(device.backend_state, None);
    assert_eq!(device.metrics.activate_fails, 0);
}

fn device_with_window() -> VhostUserFsImpl {
    let mut backend = Backend::new(
        available_features(),
        VhostUserProtocolFeatures::all().bits(),
    );
    let mut config = config("tag", 0);
    config.dax_window_size_mib = Some(2);
    let mut device = backend.open(config).unwrap();
    device.dax_window = Some(DaxWindow {
        memfd: 5,
        host_addr: 0x7000_0000_0000,
        gpa: 0x80_0000_0000,
        size: 0x20_0000,
        kvm_slot: 9,
    });
    device.shmem_region = Some(ShmemRegion {
        id: 0,
        len: 0x20_0000,
        gpa: 0x80_0000_0000,
    });
    device
}

#[test]
fn request_channel_is_served_before_the_backend_gets_it() {
    let (mut device, asked) = succeed(device_with_window().activate(1, 2));
    assert_eq!(
        asked[2..7],
        [
            Request::Host(HostCall::NewReqHandler {
                window_host_addr: 0x7000_0000_0000,
                window_size: 0x20_0000,
            }),
            Request::Host(HostCall::SetReplyAckFlag { enable: true }),
            Request::Host(HostCall::CreateEventFd { flags: 0x800 }),
            Request::Host(HostCall::SpawnReqThread),
            Request::Vhost(VhostCall::SetBackendRequestFd),
        ]
    );
    assert_eq!(device.backend_req_stop, Some(55));
    assert_eq!(device.backend_req_thread, Some(66));
    // Stopping the thread is done once.
    assert_eq!(
        device.stop_backend_req_handler(),
        StopActions {
            signal: Some(55),
            join: Some(66)
        }
    );
    assert_eq!(
        device.stop_backend_req_handler(),
        StopActions {
            signal: None,
            join: None
        }
    );
}

#[test]
fn request_channel_needs_a_window() {
    let mut backend = Backend::new(0, 0);
    let device = backend.open(config("tag", 0)).unwrap();
    assert!(matches!(
        device.start_backend_req_handler(),
        Err(VhostUserFsError::BackendReq(_))
    ));
    assert_eq!(device.shmem_regions(), &[]);
    let device = device_with_window();
    assert_eq!(device.start_backend_req_handler().unwrap().len(), 5);
    assert_eq!(device.shmem_regions().len(), 1);
    assert_eq!(device.dax_window_gpa(), Some(0x80_0000_0000));
}

#[test]
fn activation_fails_where_a_call_fails() {
    let vu = ActivateError::VhostUser;
    let fs = ActivateError::VhostUserFs;
    let errors = [
        ActivateError::QueueMemoryError(fault("no")),
        vu(VhostUserError::VhostUserSetFeatures(fault("no"))),
        fs(VhostUserFsError::Memfd(fault("no"))),
        fs(VhostUserFsError::DeviceStateTransfer(fault("no"))),
        fs(VhostUserFsError::DeviceStateTransfer(fault("no"))),
        fs(VhostUserFsError::VhostUser(
            VhostUserError::VhostUserSetDeviceStateFd(fault("no")),
        )),
        fs(VhostUserFsError::VhostUser(
            VhostUserError::VhostUserCheckDeviceState(fault("no")),
        )),
        vu(VhostUserError::VhostUserSetMemTable(fault("no"))),
        vu(VhostUserError::VhostUserSetVringNum(fault("no"))),
        vu(VhostUserError::VhostUserSetVringAddr(fault("no"))),
        vu(VhostUserError::VhostUserSetVringBase(fault("no"))),
        vu(VhostUserError::VhostUserSetVringCall(fault("no"))),
        vu(VhostUserError::VhostUserSetVringKick(fault("no"))),
        vu(VhostUserError::VhostUserSetVringEnable(fault("no"))),
        vu(VhostUserError::VhostUserGetProtocolFeatures(fault("no"))),
    ];
    for (place, expected) in errors.into_iter().enumerate() {
        let mut backend = Backend::new(0, 0);
        let mut device = backend.open(config("tag", 0)).unwrap();
        device.backend_state = Some(vec![4]);
        let (device, error) = fail_at(device.activate(1, 2), place);
        assert_eq!(error, expected);
        assert!(!device.is_activated());
        // A failure about a queue is not counted.
        assert_eq!(device.metrics.activate_fails, u64::from(place > 0));
        // The blob is gone once the features are set.
        assert_eq!(device.backend_state.is_some(), place <= 1);
    }
}

#[test]
fn opening_the_request_channel_can_fail() {
    // Place 3 cannot fail, place 5 always gives a thread.
    for (place, expected) in [
        (2, VhostUserFsError::BackendReqVhost(fault("no"))),
        (4, VhostUserFsError::EventFd(fault("no"))),
        (6, VhostUserFsError::Vhost(fault("no"))),
    ] {
        let (device, error) = fail_at(device_with_window().activate(1, 2), place);
        assert_eq!(error, ActivateError::VhostUserFs(expected));
        assert!(!device.is_activated());
    }
    // The outcome of setting the flag is not looked at.
    let mut activation = device_with_window().activate(1, 2);
    let mut at = 0;
    while activation.pending().is_some() {
        let reply = if at == 3 { Err(fault("ignored")) } else { Ok(1) };
        activation = activation.complete(reply);
        at += 1;
    }
    assert!(activation.finish().0.is_activated());
}

#[test]
fn activation_failures_are_counted_modulo_the_word() {
    let mut backend = Backend::new(0, 0);
    let mut device = backend.open(config("tag", 0)).unwrap();
    device.metrics.activate_fails = u64::MAX;
    let (device, _) = fail_at(device.activate(1, 2), 1);
    assert_eq!(device.metrics.activate_fails, 0);
}

#[test]
fn deactivated_device_can_be_activated_again() {
    let mut backend = Backend::new(0, 0);
    let device = backend.open(config("tag", 1)).unwrap();
    let (mut device, _) = succeed(device.activate(1, 2));
    assert!(!device._reset());
    assert!(device.is_activated());
    device.deactivate();
    assert!(!device.is_activated());
    let (device, _) = succeed(device.activate(3, 4));
    assert_eq!(device.interrupt_trigger(), 4);
}

#[test]
fn times_are_differences() {
    let mut backend = Backend::new(0, 0);
    let mut device = backend.open(config("tag", 1)).unwrap();
    device.record_init_time(100, 142);
    device.record_activate_time(200, 207);
    assert_eq!(device.metrics.init_time_us, 42);
    assert_eq!(device.metrics.activate_time_us, 7);
}

#[test]
fn memfds_have_names() {
    assert_eq!(MemfdName::Dax.name(), "vhost_user_fs_dax");
    assert_eq!(MemfdName::State.name(), "vhost_user_fs_state");
}
