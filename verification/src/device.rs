//! The vhost-user fs device.

use vstd::prelude::*;

use crate::config::FsDeviceConfig;
use crate::outside::{device_state, DEVICE_STATE};
use crate::queue::{Queue, VirtioDeviceType};

verus! {

/// virtio-fs shared-memory capability id for the DAX cache window.
pub const VIRTIO_FS_SHMCAP_ID_CACHE: u8 = 0;

/// What an activated device was activated with, by the host's handles.
#[derive(Clone, Copy, Debug, PartialEq, Eq, Structural)]
pub struct ActiveState {
    /// The guest memory.
    pub mem: u64,
    /// The interrupt of the device.
    pub interrupt: u64,
}

/// Whether the guest driver uses the device.
#[derive(Clone, Copy, Debug, PartialEq, Eq, Structural)]
pub enum DeviceState {
    Inactive,
    Activated(ActiveState),
}

/// A shared-memory region of the device, as the guest finds it.
#[derive(Clone, Copy, Debug, PartialEq, Eq, Structural)]
pub struct ShmemRegion {
    pub id: u8,
    pub len: u64,
    pub gpa: u64,
}

/// A 2 MiB-aligned DAX cache window backed by a memfd and mapped into
/// both host virtual address space and guest physical address space.
#[derive(Clone, Copy, Debug, PartialEq, Eq, Structural)]
pub struct DaxWindow {
    /// Descriptor of the memfd backing the window.
    pub memfd: i32,
    /// Host virtual address of the start of the window.
    pub host_addr: u64,
    /// Guest physical address of the start of the window.
    pub gpa: u64,
    /// Size of the window in bytes.
    pub size: u64,
    /// KVM slot used to map the GPA range.
    pub kvm_slot: u32,
}

/// The metrics of one device.
#[derive(Clone, Copy, Debug, PartialEq, Eq, Structural)]
pub struct VhostUserDeviceMetrics {
    /// How often activation failed after the queues were in place.
    pub activate_fails: u64,
    /// How long it took to create the device.
    pub init_time_us: u64,
    /// How long it took to activate the device.
    pub activate_time_us: u64,
}

/// The connection to the backend.
#[derive(Debug, PartialEq, Eq)]
pub struct VhostUserHandle {
    pub socket_path: String,
}

/// vhost-user fs device. Eventfds, threads, guest memory and interrupts are
/// kept as the handles by which the host finds them. A device is not printed
/// by itself: the blob of the backend is not for logs.
#[derive(PartialEq, Eq)]
pub struct VhostUserFsImpl {
    // Virtio fields.
    pub avail_features: u64,
    pub acked_features: u64,
    pub config_space: Vec<u8>,
    pub activate_evt: u64,

    // Transport related fields.
    pub queues: Vec<Queue>,
    pub queue_evts: Vec<u64>,
    pub device_state: DeviceState,

    // Implementation specific fields.
    pub id: String,
    pub tag: String,
    pub num_request_queues: u16,

    // Vhost user protocol handle
    pub vu_handle: VhostUserHandle,
    pub vu_acked_protocol_features: u64,
    /// Backend device-state blob. Populated by `capture_backend_state` on
    /// the snapshot save path and consumed by `activate` on the restore
    /// path, where it is loaded into the fresh backend before the vrings
    /// are set up and enabled.
    pub backend_state: Option<Vec<u8>>,
    pub metrics: VhostUserDeviceMetrics,

    // DAX window state.
    pub dax_window_size_mib: Option<u64>,
    pub dax_window: Option<DaxWindow>,
    pub shmem_region: Option<ShmemRegion>,
    /// Thread serving backend requests for the DAX window.
    pub backend_req_thread: Option<u64>,
    /// Eventfd used to stop the backend request thread.
    pub backend_req_stop: Option<u64>,
}

pub type VhostUserFs = VhostUserFsImpl;

/// The device as a mathematical value.
pub struct DeviceView {
    pub avail_features: u64,
    pub acked_features: u64,
    pub config_space: Seq<u8>,
    pub activate_evt: u64,
    pub queues: Seq<Queue>,
    pub queue_evts: Seq<u64>,
    pub device_state: DeviceState,
    pub id: Seq<char>,
    pub tag: Seq<char>,
    pub num_request_queues: u16,
    pub socket_path: Seq<char>,
    pub vu_acked_protocol_features: u64,
    pub backend_state: Option<Seq<u8>>,
    pub metrics: VhostUserDeviceMetrics,
    pub dax_window_size_mib: Option<u64>,
    pub dax_window: Option<DaxWindow>,
    pub shmem_region: Option<ShmemRegion>,
    pub backend_req_thread: Option<u64>,
    pub backend_req_stop: Option<u64>,
}

/// The bytes of an optional blob.
pub open spec fn blob_view(blob: Option<Vec<u8>>) -> Option<Seq<u8>> {
    match blob {
        Some(bytes) => Some(bytes@),
        None => None,
    }
}

impl View for VhostUserFsImpl {
    type V = DeviceView;

    open spec fn view(&self) -> DeviceView {
        DeviceView {
            avail_features: self.avail_features,
            acked_features: self.acked_features,
            config_space: self.config_space@,
            activate_evt: self.activate_evt,
            queues: self.queues@,
            queue_evts: self.queue_evts@,
            device_state: self.device_state,
            id: self.id@,
            tag: self.tag@,
            num_request_queues: self.num_request_queues,
            socket_path: self.vu_handle.socket_path@,
            vu_acked_protocol_features: self.vu_acked_protocol_features,
            backend_state: blob_view(self.backend_state),
            metrics: self.metrics,
            dax_window_size_mib: self.dax_window_size_mib,
            dax_window: self.dax_window,
            shmem_region: self.shmem_region,
            backend_req_thread: self.backend_req_thread,
            backend_req_stop: self.backend_req_stop,
        }
    }
}

impl DeviceView {
    pub open spec fn is_activated(self) -> bool {
        self.device_state is Activated
    }

    /// Whether the backend acknowledged the DEVICE_STATE protocol feature.
    pub open spec fn snapshot_capable(self) -> bool {
        self.vu_acked_protocol_features & DEVICE_STATE != 0
    }

    /// Guest physical address where the DAX window starts, if there is one.
    pub open spec fn dax_window_gpa(self) -> Option<u64> {
        match self.dax_window {
            Some(window) => Some(window.gpa),
            None => None,
        }
    }

    /// Whether a configuration is that of the device, with every option
    /// spelled out.
    pub open spec fn described_by(self, config: FsDeviceConfig) -> bool {
        &&& config.fs_id@ == self.id
        &&& config.socket@ == self.socket_path
        &&& config.tag matches Some(tag) && tag@ == self.tag
        &&& config.num_request_queues == Some(self.num_request_queues)
        &&& config.dax_window_size_mib == self.dax_window_size_mib
    }

    /// What has to hold of the parts of a device between operations: there is
    /// one queue and one eventfd for the hiprio queue and each request queue,
    /// the config space shows the tag and the number of request queues, there
    /// is a DAX window only where one is configured, and the shared-memory
    /// region that the guest sees is that window.
    pub open spec fn wf(self) -> bool {
        &&& self.queues.len() == crate::queue::queue_count(self.num_request_queues)
        &&& self.queue_evts.len() == crate::queue::queue_count(self.num_request_queues)
        &&& self.config_space == crate::config_space::config_space(
            vstd::utf8::encode_utf8(self.tag),
            self.num_request_queues,
        )
        &&& self.dax_window is Some ==> self.dax_window_size_mib is Some
        &&& self.shmem_region == match self.dax_window {
            Some(window) => Some(
                ShmemRegion { id: VIRTIO_FS_SHMCAP_ID_CACHE, len: window.size, gpa: window.gpa },
            ),
            None => None,
        }
    }
}

/// What a read of a config space from `offset` on makes of `data`: as far as
/// both reach, the bytes of the config space stand in it.
pub open spec fn config_read(space: Seq<u8>, offset: u64, data: Seq<u8>) -> Seq<u8> {
    Seq::new(
        data.len(),
        |i: int|
            if offset + i < space.len() {
                space[offset + i]
            } else {
                data[i]
            },
    )
}

impl DeviceView {
    /// How the backend request thread is stopped.
    pub open spec fn stop_actions(self) -> StopActions {
        StopActions { signal: self.backend_req_stop, join: self.backend_req_thread }
    }

    /// The device without the backend request thread.
    pub open spec fn without_req_thread(self) -> DeviceView {
        DeviceView { backend_req_stop: None, backend_req_thread: None, ..self }
    }

    /// The device once it is known how long it took to create it.
    pub open spec fn with_init_time(self, start_us: u64, end_us: u64) -> DeviceView {
        DeviceView {
            metrics: VhostUserDeviceMetrics {
                init_time_us: (end_us - start_us) as u64,
                ..self.metrics
            },
            ..self
        }
    }

    /// The device once it is known how long it took to activate it.
    pub open spec fn with_activate_time(self, start_us: u64, end_us: u64) -> DeviceView {
        DeviceView {
            metrics: VhostUserDeviceMetrics {
                activate_time_us: (end_us - start_us) as u64,
                ..self.metrics
            },
            ..self
        }
    }

    /// The device that the guest driver no longer uses.
    pub open spec fn deactivated(self) -> DeviceView {
        DeviceView { device_state: DeviceState::Inactive, ..self }
    }

    /// The shared-memory regions that the guest finds.
    pub open spec fn regions(self) -> Seq<ShmemRegion> {
        match self.shmem_region {
            Some(region) => seq![region],
            None => Seq::empty(),
        }
    }
}

/// What has to be done to stop the backend request thread.
#[derive(Clone, Copy, Debug, PartialEq, Eq, Structural)]
pub struct StopActions {
    /// Write 1 to this eventfd.
    pub signal: Option<u64>,
    /// Then wait for this thread to end.
    pub join: Option<u64>,
}

impl VhostUserFsImpl {
    /// The configuration of the device, for introspection.
    pub fn config(&self) -> (config: FsDeviceConfig)
        ensures
            self@.described_by(config),
    {
        FsDeviceConfig {
            fs_id: self.id.clone(),
            socket: self.vu_handle.socket_path.clone(),
            tag: Some(self.tag.clone()),
            num_request_queues: Some(self.num_request_queues),
            dax_window_size_mib: self.dax_window_size_mib,
        }
    }

    /// Guest physical address where the DAX window starts, if configured.
    pub fn dax_window_gpa(&self) -> (gpa: Option<u64>)
        ensures
            gpa == self@.dax_window_gpa(),
    {
        match &self.dax_window {
            Some(window) => Some(window.gpa),
            None => None,
        }
    }

    /// Whether the backend acknowledged the DEVICE_STATE protocol feature,
    /// i.e. whether it can transfer its internal state for snapshotting.
    pub fn snapshot_capable(&self) -> (r: bool)
        ensures
            r == self@.snapshot_capable(),
    {
        self.vu_acked_protocol_features & device_state() != 0
    }

    /// Forgets the backend request thread and says how to stop it. A thread
    /// that was never started needs nothing.
    pub fn stop_backend_req_handler(&mut self) -> (actions: StopActions)
        ensures
            actions == old(self)@.stop_actions(),
            final(self)@ == old(self)@.without_req_thread(),
    {
        StopActions { signal: self.backend_req_stop.take(), join: self.backend_req_thread.take() }
    }

    /// Stores how long it took to create the device.
    pub fn record_init_time(&mut self, start_us: u64, end_us: u64)
        requires
            start_us <= end_us,
        ensures
            final(self)@ == old(self)@.with_init_time(start_us, end_us),
    {
        self.metrics.init_time_us = end_us - start_us;
    }

    /// Stores how long it took to activate the device.
    pub fn record_activate_time(&mut self, start_us: u64, end_us: u64)
        requires
            start_us <= end_us,
        ensures
            final(self)@ == old(self)@.with_activate_time(start_us, end_us),
    {
        self.metrics.activate_time_us = end_us - start_us;
    }

    pub fn device_type(&self) -> (device_type: VirtioDeviceType)
        ensures
            device_type == VirtioDeviceType::Fs,
    {
        VirtioDeviceType::Fs
    }

    pub fn id(&self) -> (id: &str)
        ensures
            id@ == self@.id,
    {
        self.id.as_str()
    }

    pub fn avail_features(&self) -> (features: u64)
        ensures
            features == self@.avail_features,
    {
        self.avail_features
    }

    pub fn acked_features(&self) -> (features: u64)
        ensures
            features == self@.acked_features,
    {
        self.acked_features
    }

    pub fn set_acked_features(&mut self, acked_features: u64)
        ensures
            final(self)@ == (DeviceView { acked_features, ..old(self)@ }),
    {
        self.acked_features = acked_features;
    }

    pub fn queues(&self) -> (queues: &[Queue])
        ensures
            queues@ == self@.queues,
    {
        self.queues.as_slice()
    }

    pub fn queues_mut(&mut self) -> (queues: &mut [Queue])
        ensures
            queues@ == old(self)@.queues,
            final(self)@ == (DeviceView { queues: final(queues)@, ..old(self)@ }),
    {
        self.queues.as_mut_slice()
    }

    pub fn queue_events(&self) -> (evts: &[u64])
        ensures
            evts@ == self@.queue_evts,
    {
        self.queue_evts.as_slice()
    }

    /// The interrupt of an activated device.
    pub fn interrupt_trigger(&self) -> (interrupt: u64)
        requires
            self@.is_activated(),
        ensures
            self@.device_state matches DeviceState::Activated(active) && interrupt
                == active.interrupt,
    {
        match &self.device_state {
            DeviceState::Activated(active) => active.interrupt,
            DeviceState::Inactive => 0,
        }
    }

    pub fn config_as_bytes(&self) -> (bytes: &[u8])
        ensures
            bytes@ == self@.config_space,
    {
        self.config_space.as_slice()
    }

    /// Copies the config space from `offset` on into `data`, as far as both
    /// reach. An offset behind the config space leaves `data` as it is.
    pub fn read_config(&self, offset: u64, data: &mut Vec<u8>)
        ensures
            final(data)@ == config_read(self@.config_space, offset, old(data)@),
    {
        let len: usize = self.config_space.len();
        if offset >= len as u64 {
            return;
        }
        let start: usize = offset as usize;
        let mut i: usize = 0;
        while i < data.len() && i < len - start
            invariant
                len == self.config_space@.len(),
                start == offset,
                start < len,
                i <= data@.len(),
                i <= len - start,
                data@.len() == old(data)@.len(),
                forall|j: int|
                    0 <= j < data@.len() ==> #[trigger] data@[j] == if j < i {
                        self.config_space@[start + j]
                    } else {
                        old(data)@[j]
                    },
            decreases len - start - i,
        {
            data.set(i, self.config_space[start + i]);
            i = i + 1;
        }
    }

    /// The fs config space (mount tag and number of request queues) is
    /// immutable; virtio-fs defines no writable fields.
    pub fn write_config(&mut self, _offset: u64, _data: &[u8])
        ensures
            final(self)@ == old(self)@,
    {
    }

    pub fn is_activated(&self) -> (r: bool)
        ensures
            r == self@.is_activated(),
    {
        match &self.device_state {
            DeviceState::Activated(_) => true,
            DeviceState::Inactive => false,
        }
    }

    pub fn deactivate(&mut self)
        ensures
            final(self)@ == old(self)@.deactivated(),
    {
        self.device_state = DeviceState::Inactive;
    }

    /// The device cannot be reset, and is left as it is.
    pub fn _reset(&mut self) -> (done: bool)
        ensures
            !done,
            final(self)@ == old(self)@,
    {
        false
    }

    /// The shared-memory regions of the device: the DAX window, if it has been
    /// created.
    pub fn shmem_regions(&self) -> (regions: &[ShmemRegion])
        ensures
            regions@ == self@.regions(),
    {
        self.shmem_region.as_slice()
    }
}

/// A device can be captured exactly if bit 19 of the protocol features that its
/// backend acknowledged is set, whatever the other bits are.
pub proof fn law_capture_goes_by_one_bit(device: DeviceView, other: DeviceView)
    ensures
        device.snapshot_capable() <==> device.vu_acked_protocol_features & 0x8_0000 == 0x8_0000,
        device.vu_acked_protocol_features & 0x8_0000 == other.vu_acked_protocol_features & 0x8_0000
            ==> device.snapshot_capable() == other.snapshot_capable(),
{
    let features = device.vu_acked_protocol_features;
    let other_features = other.vu_acked_protocol_features;
    assert(features & 0x8_0000u64 != 0 <==> features & 0x8_0000 == 0x8_0000) by (bit_vector);
    assert(other_features & 0x8_0000u64 != 0 <==> other_features & 0x8_0000 == 0x8_0000)
        by (bit_vector);
}

/// In a well-formed device the guest finds the DAX window exactly if it is
/// there, as region 0, at its address in the guest and in its size; the eventfds
/// and the queues are one more than the request queues; and the config space
/// has 38 bytes, of which the last two are the number of request queues.
pub proof fn law_guest_finds_the_window(device: DeviceView)
    requires
        device.wf(),
    ensures
        device.dax_window is Some <==> device.shmem_region is Some,
        device.dax_window matches Some(window) ==> {
            &&& device.shmem_region->0.id == 0
            &&& device.shmem_region->0.gpa == window.gpa
            &&& device.shmem_region->0.len == window.size
            &&& device.dax_window_gpa() == Some(window.gpa)
            &&& device.dax_window_size_mib is Some
        },
        device.dax_window is None ==> device.dax_window_gpa() is None,
        device.queues.len() == device.num_request_queues + 1,
        device.queue_evts.len() == device.num_request_queues + 1,
        device.config_space.len() == 38,
        device.config_space[36] + 256 * device.config_space[37] == device.num_request_queues,
{
    let tag = vstd::utf8::encode_utf8(device.tag);
    crate::config_space::law_config_space_layout(tag, device.num_request_queues);
}

/// What is told of a device is what it holds, field by field.
pub proof fn law_view_is_the_device(device: VhostUserFsImpl)
    ensures
        device@.avail_features == device.avail_features,
        device@.acked_features == device.acked_features,
        device@.config_space == device.config_space@,
        device@.activate_evt == device.activate_evt,
        device@.queues == device.queues@,
        device@.queue_evts == device.queue_evts@,
        device@.device_state == device.device_state,
        device@.id == device.id@,
        device@.tag == device.tag@,
        device@.num_request_queues == device.num_request_queues,
        device@.socket_path == device.vu_handle.socket_path@,
        device@.vu_acked_protocol_features == device.vu_acked_protocol_features,
        device@.backend_state is Some <==> device.backend_state is Some,
        device.backend_state matches Some(blob) ==> device@.backend_state == Some(blob@),
        device@.metrics == device.metrics,
        device@.dax_window_size_mib == device.dax_window_size_mib,
        device@.dax_window == device.dax_window,
        device@.shmem_region == device.shmem_region,
        device@.backend_req_thread == device.backend_req_thread,
        device@.backend_req_stop == device.backend_req_stop,
        device@.is_activated() <==> device.device_state is Activated,
{
}

/// Stopping the backend request thread signals its eventfd and waits for the
/// thread that was started, each if there is one; nothing else of the device
/// changes, and there is nothing left to be stopped.
pub proof fn law_thread_is_stopped_once(device: DeviceView)
    ensures
        device.stop_actions().signal == device.backend_req_stop,
        device.stop_actions().join == device.backend_req_thread,
        device.without_req_thread().stop_actions().signal is None,
        device.without_req_thread().stop_actions().join is None,
        device == (DeviceView {
            backend_req_stop: device.backend_req_stop,
            backend_req_thread: device.backend_req_thread,
            ..device.without_req_thread()
        }),
{
}

/// The recorded times are those that passed between the two moments, and
/// recording one of them changes nothing else.
pub proof fn law_recorded_times(device: DeviceView, start_us: u64, end_us: u64)
    requires
        start_us <= end_us,
    ensures
        start_us + device.with_init_time(start_us, end_us).metrics.init_time_us == end_us,
        start_us + device.with_activate_time(start_us, end_us).metrics.activate_time_us == end_us,
        device == (DeviceView {
            metrics: VhostUserDeviceMetrics {
                init_time_us: device.metrics.init_time_us,
                ..device.with_init_time(start_us, end_us).metrics
            },
            ..device.with_init_time(start_us, end_us)
        }),
        device == (DeviceView {
            metrics: VhostUserDeviceMetrics {
                activate_time_us: device.metrics.activate_time_us,
                ..device.with_activate_time(start_us, end_us).metrics
            },
            ..device.with_activate_time(start_us, end_us)
        }),
{
}

/// A device that is deactivated is not active, and is otherwise what it was.
pub proof fn law_deactivated_device(device: DeviceView)
    ensures
        !device.deactivated().is_activated(),
        device == (DeviceView { device_state: device.device_state, ..device.deactivated() }),
{
}

/// A read shows each byte of the config space at its place, and leaves what
/// lies behind the config space as it was. It does not matter in how many
/// parts the config space is read.
pub proof fn law_config_reads(space: Seq<u8>, offset: u64, data1: Seq<u8>, data2: Seq<u8>)
    requires
        offset + data1.len() <= u64::MAX,
    ensures
        ({
            let read = config_read(space, offset, data1);
            &&& read.len() == data1.len()
            &&& forall|i: int|
                #![trigger read[i]]
                0 <= i < data1.len() ==> {
                    &&& offset + i < space.len() ==> read[i] == space[offset + i]
                    &&& offset + i >= space.len() ==> read[i] == data1[i]
                }
        }),
        config_read(space, offset, data1 + data2) == config_read(space, offset, data1)
            + config_read(space, (offset + data1.len()) as u64, data2),
{
    assert(config_read(space, offset, data1 + data2) =~= config_read(space, offset, data1)
        + config_read(space, (offset + data1.len()) as u64, data2));
}

/// The guest finds one region, that of the window, or none.
pub proof fn law_regions(device: DeviceView)
    requires
        device.wf(),
    ensures
        device.regions().len() == if device.dax_window is Some {
            1nat
        } else {
            0
        },
        device.dax_window matches Some(window) ==> {
            &&& device.regions()[0].id == 0
            &&& device.regions()[0].gpa == window.gpa
            &&& device.regions()[0].len == window.size
        },
{
}

} // verus!
