//! The DAX cache window: host memory that the guest maps files into.

use vstd::prelude::*;

use crate::device::{
    DaxWindow, DeviceView, ShmemRegion, VhostUserFsImpl, VIRTIO_FS_SHMCAP_ID_CACHE,
};
use crate::error::{Fault, VhostUserFsError};
use crate::outside::{
    map_anonymous, map_fixed, map_noreserve, map_private, map_shared, prot_none, prot_read,
    prot_write, MAP_ANONYMOUS, MAP_FIXED, MAP_NORESERVE, MAP_PRIVATE, MAP_SHARED, PROT_NONE,
    PROT_READ, PROT_WRITE,
};
use crate::request::{Call, HostCall, MemfdName, MmapArgs, Request, VmCall};

verus! {

/// The alignment of the window in the host address space: 2 MiB.
pub const WINDOW_ALIGN: u64 = 0x20_0000;

/// A number of MiB in bytes, as far as 64 bits hold it.
pub open spec fn mib_in_bytes(mib: u64) -> u64 {
    (mib * 0x10_0000 % 0x1_0000_0000_0000_0000) as u64
}

/// A number of MiB in bytes. High bits that do not fit are lost.
pub fn mib_to_bytes(mib: u64) -> (bytes: u64)
    ensures
        bytes == mib_in_bytes(mib),
{
    assert((mib << 20u64) == mib * 0x10_0000 % 0x1_0000_0000_0000_0000) by (bit_vector);
    mib << 20u64
}

/// The first multiple of the window alignment that is not below `addr`.
pub open spec fn align_up(addr: u64) -> int {
    (addr + WINDOW_ALIGN - 1) / (WINDOW_ALIGN as int) * WINDOW_ALIGN
}

/// How a reservation is cut: what lies before the window, the window, and
/// what lies behind it.
#[derive(Clone, Copy, Debug, PartialEq, Eq, Structural)]
pub struct WindowLayout {
    /// Where the window starts.
    pub addr: u64,
    /// The bytes to give back before it.
    pub head_size: u64,
    /// The bytes to give back behind it.
    pub tail_size: u64,
}

/// The layout of a window of `size` bytes in a reservation that starts at
/// `ptr` and is one alignment unit larger than the window.
pub open spec fn window_layout(ptr: u64, size: u64) -> WindowLayout {
    WindowLayout {
        addr: align_up(ptr) as u64,
        head_size: (align_up(ptr) - ptr) as u64,
        tail_size: (WINDOW_ALIGN - (align_up(ptr) - ptr)) as u64,
    }
}

/// Cuts a reservation so that what stays is aligned.
pub fn cut_reservation(ptr: u64, size: u64) -> (layout: WindowLayout)
    requires
        ptr + size + WINDOW_ALIGN <= u64::MAX,
    ensures
        layout == window_layout(ptr, size),
{
    let raised: u64 = ptr + (WINDOW_ALIGN - 1);
    assert(raised & !0x1f_ffffu64 == raised / 0x20_0000 * 0x20_0000) by (bit_vector);
    let addr: u64 = raised & !(WINDOW_ALIGN - 1);
    let alloc_size: u64 = size + WINDOW_ALIGN;
    let head_size: u64 = addr - ptr;
    let tail_size: u64 = alloc_size - head_size - size;
    WindowLayout { addr, head_size, tail_size }
}

/// The window that is cut out of a reservation is aligned, and the parts given
/// back before and behind it are, with the window, exactly the reservation.
pub proof fn law_window_cut_is_exact(ptr: u64, size: u64)
    requires
        ptr + size + WINDOW_ALIGN <= u64::MAX,
    ensures
        ({
            let layout = window_layout(ptr, size);
            &&& layout.addr % WINDOW_ALIGN == 0
            &&& ptr <= layout.addr < ptr + WINDOW_ALIGN
            &&& ptr + layout.head_size == layout.addr
            &&& layout.addr + size + layout.tail_size == ptr + size + WINDOW_ALIGN
            &&& layout.tail_size > 0
        }),
{
}

/// How far the mapping of the window has come: the call that is next.
#[derive(Debug, PartialEq, Eq)]
pub enum MappingPhase {
    Reserve,
    TrimHead { ptr: u64 },
    TrimTail { ptr: u64 },
    MapMemfd { ptr: u64 },
    Release { ptr: u64, fault: Fault },
    Mapped { addr: u64 },
    Failed(VhostUserFsError),
}

/// The mapping of a memfd into a 2 MiB-aligned host address range.
#[derive(Debug, PartialEq, Eq)]
pub struct WindowMapping {
    pub size: u64,
    pub fd: i32,
    pub phase: MappingPhase,
}

impl WindowMapping {
    /// The size of the reservation: large enough that trimming head and tail
    /// leaves an aligned region of the requested size.
    pub open spec fn alloc_size(self) -> int {
        self.size + WINDOW_ALIGN
    }

    pub open spec fn wf(self) -> bool {
        &&& self.alloc_size() <= u64::MAX
        &&& match self.phase {
            MappingPhase::TrimHead { ptr } => ptr + self.alloc_size() <= u64::MAX,
            MappingPhase::TrimTail { ptr } => ptr + self.alloc_size() <= u64::MAX,
            MappingPhase::MapMemfd { ptr } => ptr + self.alloc_size() <= u64::MAX,
            MappingPhase::Release { ptr, .. } => ptr + self.alloc_size() <= u64::MAX,
            _ => true,
        }
    }

    pub open spec fn pending_call(self) -> Option<HostCall> {
        match self.phase {
            MappingPhase::Reserve => Some(
                HostCall::Mmap(
                    MmapArgs {
                        addr: 0,
                        len: self.alloc_size() as u64,
                        prot: PROT_NONE,
                        flags: MAP_PRIVATE | MAP_ANONYMOUS | MAP_NORESERVE,
                        fd: -1i32,
                        offset: 0,
                    },
                ),
            ),
            MappingPhase::TrimHead { ptr } => Some(
                HostCall::Munmap { addr: ptr, len: window_layout(ptr, self.size).head_size },
            ),
            MappingPhase::TrimTail { ptr } => Some(
                HostCall::Munmap {
                    addr: (window_layout(ptr, self.size).addr + self.size) as u64,
                    len: window_layout(ptr, self.size).tail_size,
                },
            ),
            MappingPhase::MapMemfd { ptr } => Some(
                HostCall::Mmap(
                    MmapArgs {
                        addr: window_layout(ptr, self.size).addr,
                        len: self.size,
                        prot: PROT_READ | PROT_WRITE,
                        flags: MAP_SHARED | MAP_FIXED,
                        fd: self.fd,
                        offset: 0,
                    },
                ),
            ),
            MappingPhase::Release { ptr, .. } => Some(
                HostCall::Munmap { addr: window_layout(ptr, self.size).addr, len: self.size },
            ),
            MappingPhase::Mapped { .. } | MappingPhase::Failed(_) => None,
        }
    }

    /// At most so many calls are still to be made.
    pub open spec fn remaining(self) -> nat {
        match self.phase {
            MappingPhase::Reserve => 5,
            MappingPhase::TrimHead { .. } => 4,
            MappingPhase::TrimTail { .. } => 3,
            MappingPhase::MapMemfd { .. } => 2,
            MappingPhase::Release { .. } => 1,
            MappingPhase::Mapped { .. } | MappingPhase::Failed(_) => 0,
        }
    }

    /// What the kernel can answer: a reservation lies in the address space,
    /// and a mapping at a fixed address is at that address.
    pub open spec fn can_answer(self, reply: Result<u64, Fault>) -> bool {
        match (self.phase, reply) {
            (MappingPhase::Reserve, Ok(ptr)) => ptr + self.alloc_size() <= u64::MAX,
            (MappingPhase::MapMemfd { ptr }, Ok(addr)) => addr == window_layout(
                ptr,
                self.size,
            ).addr,
            _ => true,
        }
    }

    /// What the answer to the pending call makes of it. The outcome of an
    /// unmapping is ignored; a reservation that cannot be used is given back.
    pub open spec fn step(self, reply: Result<u64, Fault>) -> WindowMapping {
        let phase = match (self.phase, reply) {
            (MappingPhase::Reserve, Ok(ptr)) => {
                let layout = window_layout(ptr, self.size);
                if layout.head_size > 0 {
                    MappingPhase::TrimHead { ptr }
                } else if layout.tail_size > 0 {
                    MappingPhase::TrimTail { ptr }
                } else {
                    MappingPhase::MapMemfd { ptr }
                }
            },
            (MappingPhase::Reserve, Err(fault)) => MappingPhase::Failed(
                VhostUserFsError::Mmap(fault),
            ),
            (MappingPhase::TrimHead { ptr }, _) => if window_layout(ptr, self.size).tail_size > 0 {
                MappingPhase::TrimTail { ptr }
            } else {
                MappingPhase::MapMemfd { ptr }
            },
            (MappingPhase::TrimTail { ptr }, _) => MappingPhase::MapMemfd { ptr },
            (MappingPhase::MapMemfd { ptr }, Ok(addr)) => MappingPhase::Mapped { addr },
            (MappingPhase::MapMemfd { ptr }, Err(fault)) => MappingPhase::Release { ptr, fault },
            (MappingPhase::Release { fault, .. }, _) => MappingPhase::Failed(
                VhostUserFsError::Mmap(fault),
            ),
            (phase, _) => phase,
        };
        WindowMapping { phase, ..self }
    }

    /// Starts to allocate a 2 MiB-aligned host VA range of `size` bytes and to
    /// map the memfd `fd` into it.
    pub fn map_window_host(size: u64, fd: i32) -> (mapping: WindowMapping)
        requires
            size + WINDOW_ALIGN <= u64::MAX,
        ensures
            mapping == (WindowMapping { size, fd, phase: MappingPhase::Reserve }),
            mapping.wf(),
    {
        WindowMapping { size, fd, phase: MappingPhase::Reserve }
    }

    /// The call that is next, if any.
    pub fn pending(&self) -> (call: Option<HostCall>)
        requires
            self.wf(),
        ensures
            call == self.pending_call(),
    {
        match &self.phase {
            MappingPhase::Reserve => Some(
                HostCall::Mmap(
                    MmapArgs {
                        addr: 0,
                        // Over-allocate by one alignment unit so that trimming head/tail
                        // leaves a 2 MiB-aligned region of the requested size, regardless of
                        // the host page size.
                        len: self.size + WINDOW_ALIGN,
                        prot: prot_none(),
                        flags: map_private() | map_anonymous() | map_noreserve(),
                        fd: -1,
                        offset: 0,
                    },
                ),
            ),
            MappingPhase::TrimHead { ptr } => {
                let layout = cut_reservation(*ptr, self.size);
                Some(HostCall::Munmap { addr: *ptr, len: layout.head_size })
            },
            MappingPhase::TrimTail { ptr } => {
                let layout = cut_reservation(*ptr, self.size);
                proof {
                    law_window_cut_is_exact(*ptr, self.size);
                }
                Some(HostCall::Munmap { addr: layout.addr + self.size, len: layout.tail_size })
            },
            MappingPhase::MapMemfd { ptr } => {
                let layout = cut_reservation(*ptr, self.size);
                Some(
                    HostCall::Mmap(
                        MmapArgs {
                            addr: layout.addr,
                            len: self.size,
                            prot: prot_read() | prot_write(),
                            flags: map_shared() | map_fixed(),
                            fd: self.fd,
                            offset: 0,
                        },
                    ),
                )
            },
            MappingPhase::Release { ptr, .. } => {
                let layout = cut_reservation(*ptr, self.size);
                Some(HostCall::Munmap { addr: layout.addr, len: self.size })
            },
            MappingPhase::Mapped { .. } | MappingPhase::Failed(_) => None,
        }
    }

    /// Takes the answer to the pending call.
    pub fn complete(self, reply: Result<u64, Fault>) -> (next: WindowMapping)
        requires
            self.wf(),
            self.pending_call() is Some,
            self.can_answer(reply),
        ensures
            next == self.step(reply),
            next.wf(),
            next.remaining() < self.remaining(),
    {
        let size = self.size;
        let phase = match (self.phase, reply) {
            (MappingPhase::Reserve, Ok(ptr)) => {
                let layout = cut_reservation(ptr, size);
                if layout.head_size > 0 {
                    MappingPhase::TrimHead { ptr }
                } else if layout.tail_size > 0 {
                    MappingPhase::TrimTail { ptr }
                } else {
                    MappingPhase::MapMemfd { ptr }
                }
            },
            (MappingPhase::Reserve, Err(fault)) => MappingPhase::Failed(
                VhostUserFsError::Mmap(fault),
            ),
            (MappingPhase::TrimHead { ptr }, _) => {
                let layout = cut_reservation(ptr, size);
                if layout.tail_size > 0 {
                    MappingPhase::TrimTail { ptr }
                } else {
                    MappingPhase::MapMemfd { ptr }
                }
            },
            (MappingPhase::TrimTail { ptr }, _) => MappingPhase::MapMemfd { ptr },
            (MappingPhase::MapMemfd { .. }, Ok(addr)) => MappingPhase::Mapped { addr },
            (MappingPhase::MapMemfd { ptr }, Err(fault)) => MappingPhase::Release { ptr, fault },
            (MappingPhase::Release { fault, .. }, _) => MappingPhase::Failed(
                VhostUserFsError::Mmap(fault),
            ),
            (phase, _) => phase,
        };
        WindowMapping { size, fd: self.fd, phase }
    }
}

/// How far the creation of the window has come: the call that is next.
#[derive(Debug, PartialEq, Eq)]
pub enum DaxPhase {
    CreateMemfd,
    SetMemfdLen { fd: i32 },
    MapHost(WindowMapping),
    AllocateGpa { fd: i32, host_addr: u64 },
    Register { fd: i32, host_addr: u64, gpa: u64 },
    Done,
    Failed(VhostUserFsError),
}

/// The creation of the DAX window of a device.
#[derive(PartialEq, Eq)]
pub struct DaxSetup {
    pub device: VhostUserFsImpl,
    /// Where the guest expects the window, if a snapshot says so.
    pub at_gpa: Option<u64>,
    /// The size of the window in bytes.
    pub size: u64,
    pub phase: DaxPhase,
}

/// The creation of the DAX window as a mathematical value.
pub struct DaxSetupView {
    pub device: DeviceView,
    pub at_gpa: Option<u64>,
    pub size: u64,
    pub phase: DaxPhase,
}

impl View for DaxSetup {
    type V = DaxSetupView;

    open spec fn view(&self) -> DaxSetupView {
        DaxSetupView {
            device: self.device@,
            at_gpa: self.at_gpa,
            size: self.size,
            phase: self.phase,
        }
    }
}

impl DeviceView {
    /// Whether a DAX window is still to be created.
    pub open spec fn lacks_window(self) -> bool {
        self.dax_window_size_mib is Some && self.dax_window is None
    }

    /// The device with the given window.
    pub open spec fn with_window(self, window: DaxWindow) -> DeviceView {
        DeviceView {
            dax_window: Some(window),
            shmem_region: Some(
                ShmemRegion { id: VIRTIO_FS_SHMCAP_ID_CACHE, len: window.size, gpa: window.gpa },
            ),
            ..self
        }
    }
}

impl DaxSetupView {
    /// The start: without a configured size, or with a window in place,
    /// nothing is to be done.
    pub open spec fn start(device: DeviceView, at_gpa: Option<u64>) -> DaxSetupView {
        if device.lacks_window() {
            DaxSetupView {
                device,
                at_gpa,
                size: mib_in_bytes(device.dax_window_size_mib->0),
                phase: DaxPhase::CreateMemfd,
            }
        } else {
            DaxSetupView { device, at_gpa, size: 0, phase: DaxPhase::Done }
        }
    }

    pub open spec fn wf(self) -> bool {
        self.phase matches DaxPhase::MapHost(mapping) ==> {
            &&& mapping.wf()
            &&& mapping.size == self.size
            &&& mapping.pending_call() is Some
        }
    }

    pub open spec fn pending(self) -> Option<Call> {
        match self.phase {
            DaxPhase::CreateMemfd => Some(
                Call::Host(HostCall::CreateMemfd { name: MemfdName::Dax }),
            ),
            DaxPhase::SetMemfdLen { .. } => Some(
                Call::Host(HostCall::SetMemfdLen { len: self.size }),
            ),
            DaxPhase::MapHost(mapping) => match mapping.pending_call() {
                Some(call) => Some(Call::Host(call)),
                None => None,
            },
            DaxPhase::AllocateGpa { .. } => Some(
                Call::Vm(VmCall::AllocateGpa { size: self.size, align: self.size }),
            ),
            DaxPhase::Register { host_addr, gpa, .. } => Some(
                Call::Vm(VmCall::RegisterMemoryRegion { gpa, host_addr, size: self.size }),
            ),
            DaxPhase::Done | DaxPhase::Failed(_) => None,
        }
    }

    /// At most so many calls are still to be made.
    pub open spec fn remaining(self) -> nat {
        match self.phase {
            DaxPhase::CreateMemfd => 9,
            DaxPhase::SetMemfdLen { .. } => 8,
            DaxPhase::MapHost(mapping) => mapping.remaining() + 2,
            DaxPhase::AllocateGpa { .. } => 2,
            DaxPhase::Register { .. } => 1,
            DaxPhase::Done | DaxPhase::Failed(_) => 0,
        }
    }

    /// What the host can answer: descriptors and slots have their width, a file
    /// is not so long that it leaves no room to align its mapping, and mappings
    /// are where the kernel puts them.
    pub open spec fn can_answer(self, reply: Result<u64, Fault>) -> bool {
        match (self.phase, reply) {
            (DaxPhase::CreateMemfd, Ok(fd)) => fd <= i32::MAX,
            (DaxPhase::SetMemfdLen { .. }, Ok(_)) => self.size + WINDOW_ALIGN <= u64::MAX,
            (DaxPhase::MapHost(mapping), _) => mapping.can_answer(reply),
            (DaxPhase::Register { .. }, Ok(slot)) => slot <= u32::MAX,
            _ => true,
        }
    }

    /// What the answer to the pending call makes of it. A persisted guest
    /// address is used as it is, else one is allocated.
    pub open spec fn step(self, reply: Result<u64, Fault>) -> DaxSetupView {
        match (self.phase, reply) {
            (DaxPhase::CreateMemfd, Ok(fd)) => DaxSetupView {
                phase: DaxPhase::SetMemfdLen { fd: fd as i32 },
                ..self
            },
            (DaxPhase::CreateMemfd, Err(fault)) => DaxSetupView {
                phase: DaxPhase::Failed(VhostUserFsError::Memfd(fault)),
                ..self
            },
            (DaxPhase::SetMemfdLen { fd }, Ok(_)) => DaxSetupView {
                phase: DaxPhase::MapHost(
                    WindowMapping { size: self.size, fd, phase: MappingPhase::Reserve },
                ),
                ..self
            },
            (DaxPhase::SetMemfdLen { .. }, Err(fault)) => DaxSetupView {
                phase: DaxPhase::Failed(VhostUserFsError::MemfdSetLen(fault)),
                ..self
            },
            (DaxPhase::MapHost(mapping), _) => {
                let next = mapping.step(reply);
                DaxSetupView {
                    phase: match next.phase {
                        MappingPhase::Mapped { addr } => match self.at_gpa {
                            Some(gpa) => DaxPhase::Register { fd: next.fd, host_addr: addr, gpa },
                            None => DaxPhase::AllocateGpa { fd: next.fd, host_addr: addr },
                        },
                        MappingPhase::Failed(error) => DaxPhase::Failed(error),
                        _ => DaxPhase::MapHost(next),
                    },
                    ..self
                }
            },
            (DaxPhase::AllocateGpa { fd, host_addr }, Ok(gpa)) => DaxSetupView {
                phase: DaxPhase::Register { fd, host_addr, gpa },
                ..self
            },
            (DaxPhase::AllocateGpa { .. }, Err(fault)) => DaxSetupView {
                phase: DaxPhase::Failed(VhostUserFsError::ResourceAllocator(fault)),
                ..self
            },
            (DaxPhase::Register { fd, host_addr, gpa }, Ok(slot)) => DaxSetupView {
                device: self.device.with_window(
                    DaxWindow { memfd: fd, host_addr, gpa, size: self.size, kvm_slot: slot as u32 },
                ),
                phase: DaxPhase::Done,
                ..self
            },
            (DaxPhase::Register { .. }, Err(fault)) => DaxSetupView {
                phase: DaxPhase::Failed(VhostUserFsError::Vm(fault)),
                ..self
            },
            (DaxPhase::Done, _) | (DaxPhase::Failed(_), _) => self,
        }
    }

    /// What becomes of the creation when its calls are answered in turn.
    pub open spec fn run(self, replies: Seq<Result<u64, Fault>>) -> DaxSetupView
        decreases replies.len(),
    {
        if replies.len() == 0 || self.pending() is None {
            self
        } else {
            self.step(replies[0]).run(replies.drop_first())
        }
    }
}

impl VhostUserFsImpl {
    /// Starts to create and register the DAX cache window. Must be called
    /// before the device is attached to the MMIO transport, so the
    /// shared-memory region can be exposed via the virtio 1.2 SHM registers.
    /// On snapshot restore, `at_gpa` carries the persisted GPA: the window is
    /// re-registered there exactly (the guest's mapping table names it)
    /// without re-allocating — the restored allocator already holds the range.
    pub fn create_dax_window(self, at_gpa: Option<u64>) -> (setup: DaxSetup)
        ensures
            setup@ == DaxSetupView::start(self@, at_gpa),
            setup@.wf(),
    {
        match self.dax_window_size_mib {
            Some(size_mib) => {
                if self.dax_window.is_some() {
                    return DaxSetup { device: self, at_gpa, size: 0, phase: DaxPhase::Done };
                }
                let size: u64 = mib_to_bytes(size_mib);
                DaxSetup { device: self, at_gpa, size, phase: DaxPhase::CreateMemfd }
            },
            None => DaxSetup { device: self, at_gpa, size: 0, phase: DaxPhase::Done },
        }
    }
}

impl DaxSetup {
    /// The call that is next, if any.
    pub fn pending(&self) -> (request: Option<Request>)
        requires
            self@.wf(),
        ensures
            match request {
                Some(request) => self@.pending() == Some(request@),
                None => self@.pending() is None,
            },
    {
        match &self.phase {
            DaxPhase::CreateMemfd => Some(
                Request::Host(HostCall::CreateMemfd { name: MemfdName::Dax }),
            ),
            DaxPhase::SetMemfdLen { .. } => Some(
                Request::Host(HostCall::SetMemfdLen { len: self.size }),
            ),
            DaxPhase::MapHost(mapping) => match mapping.pending() {
                Some(call) => Some(Request::Host(call)),
                None => None,
            },
            DaxPhase::AllocateGpa { .. } => Some(
                Request::Vm(VmCall::AllocateGpa { size: self.size, align: self.size }),
            ),
            DaxPhase::Register { host_addr, gpa, .. } => Some(
                Request::Vm(
                    VmCall::RegisterMemoryRegion {
                        gpa: *gpa,
                        host_addr: *host_addr,
                        size: self.size,
                    },
                ),
            ),
            DaxPhase::Done | DaxPhase::Failed(_) => None,
        }
    }

    /// Takes the answer to the pending call.
    pub fn complete(self, reply: Result<u64, Fault>) -> (next: DaxSetup)
        requires
            self@.wf(),
            self@.pending() is Some,
            self@.can_answer(reply),
        ensures
            next@ == self@.step(reply),
            next@.wf(),
            next@.remaining() < self@.remaining(),
    {
        let mut device = self.device;
        let size: u64 = self.size;
        let phase = match (self.phase, reply) {
            (DaxPhase::CreateMemfd, Ok(fd)) => DaxPhase::SetMemfdLen { fd: fd as i32 },
            (DaxPhase::CreateMemfd, Err(fault)) => DaxPhase::Failed(VhostUserFsError::Memfd(fault)),
            (DaxPhase::SetMemfdLen { fd }, Ok(_)) => DaxPhase::MapHost(
                WindowMapping::map_window_host(size, fd),
            ),
            (DaxPhase::SetMemfdLen { .. }, Err(fault)) => DaxPhase::Failed(
                VhostUserFsError::MemfdSetLen(fault),
            ),
            (DaxPhase::MapHost(mapping), reply) => {
                let next = mapping.complete(reply);
                match next.phase {
                    MappingPhase::Mapped { addr } => match self.at_gpa {
                        // Restore path: the snapshot serializes the resource allocator
                        // WITH this range already allocated, so re-reserving it collides.
                        // Persisted resources are re-registered, not re-allocated. Trust
                        // the persisted GPA.
                        Some(gpa) => DaxPhase::Register { fd: next.fd, host_addr: addr, gpa },
                        None => DaxPhase::AllocateGpa { fd: next.fd, host_addr: addr },
                    },
                    MappingPhase::Failed(error) => DaxPhase::Failed(error),
                    phase => DaxPhase::MapHost(
                        WindowMapping { size: next.size, fd: next.fd, phase },
                    ),
                }
            },
            (DaxPhase::AllocateGpa { fd, host_addr }, Ok(gpa)) => DaxPhase::Register {
                fd,
                host_addr,
                gpa,
            },
            (DaxPhase::AllocateGpa { .. }, Err(fault)) => DaxPhase::Failed(
                VhostUserFsError::ResourceAllocator(fault),
            ),
            (DaxPhase::Register { fd, host_addr, gpa }, Ok(slot)) => {
                device.dax_window = Some(
                    DaxWindow { memfd: fd, host_addr, gpa, size, kvm_slot: slot as u32 },
                );
                device.shmem_region = Some(
                    ShmemRegion { id: VIRTIO_FS_SHMCAP_ID_CACHE, len: size, gpa },
                );
                DaxPhase::Done
            },
            (DaxPhase::Register { .. }, Err(fault)) => DaxPhase::Failed(
                VhostUserFsError::Vm(fault),
            ),
            (DaxPhase::Done, _) => DaxPhase::Done,
            (DaxPhase::Failed(error), _) => DaxPhase::Failed(error),
        };
        DaxSetup { device, at_gpa: self.at_gpa, size, phase }
    }

    /// The device and the outcome, once no call is pending.
    pub fn finish(self) -> (outcome: (VhostUserFsImpl, Result<(), VhostUserFsError>))
        requires
            self@.wf(),
            self@.pending() is None,
        ensures
            outcome.0@ == self@.device,
            outcome.1 == match self@.phase {
                DaxPhase::Failed(error) => Err::<(), _>(error),
                _ => Ok(()),
            },
    {
        match self.phase {
            DaxPhase::Failed(error) => (self.device, Err(error)),
            _ => (self.device, Ok(())),
        }
    }
}

impl DaxWindow {
    /// The call that gives the host mapping of the window back, made when the
    /// window goes.
    pub fn release(&self) -> (call: HostCall)
        ensures
            call == (HostCall::Munmap { addr: self.host_addr, len: self.size }),
    {
        HostCall::Munmap { addr: self.host_addr, len: self.size }
    }
}

/// Where the memfd cannot be mapped into the reservation, every part of the
/// reservation has been given back by the time the fault is reported: the part
/// before the window, the part behind it, and the window itself.
pub proof fn law_failed_mapping_releases_reservation(
    size: u64,
    fd: i32,
    ptr: u64,
    fault: Fault,
    ignored: Result<u64, Fault>,
)
    requires
        ptr + size + WINDOW_ALIGN <= u64::MAX,
    ensures
        ({
            let layout = window_layout(ptr, size);
            let start = WindowMapping { size, fd, phase: MappingPhase::Reserve };
            let reserved = start.step(Ok(ptr));
            let trimmed = if layout.head_size > 0 {
                reserved.step(ignored)
            } else {
                reserved
            };
            let mapping = trimmed.step(ignored);
            let failed = mapping.step(Err(fault));
            &&& layout.head_size > 0 ==> reserved.pending_call() == Some(
                HostCall::Munmap { addr: ptr, len: layout.head_size },
            )
            &&& trimmed.pending_call() == Some(
                HostCall::Munmap {
                    addr: (layout.addr + size) as u64,
                    len: layout.tail_size,
                },
            )
            &&& failed.pending_call() == Some(HostCall::Munmap { addr: layout.addr, len: size })
            &&& failed.step(ignored).phase == MappingPhase::Failed(VhostUserFsError::Mmap(fault))
            &&& layout.head_size + size + layout.tail_size == start.alloc_size()
        }),
{
    law_window_cut_is_exact(ptr, size);
}

impl DaxSetupView {
    /// Whether the host can give these answers in turn.
    pub open spec fn can_answer_all(self, replies: Seq<Result<u64, Fault>>) -> bool
        decreases replies.len(),
    {
        replies.len() == 0 || self.pending() is None || {
            &&& self.can_answer(replies[0])
            &&& self.step(replies[0]).can_answer_all(replies.drop_first())
        }
    }

    /// What holds on the way from the given device: it is unchanged until the
    /// window is in place, the host address is aligned, and a persisted guest
    /// address is never given up.
    pub open spec fn on_the_way(self, device: DeviceView) -> bool {
        &&& self.wf()
        &&& match self.phase {
            DaxPhase::AllocateGpa { host_addr, .. } => {
                &&& self.device == device
                &&& host_addr % WINDOW_ALIGN == 0
                &&& self.at_gpa is None
            },
            DaxPhase::Register { host_addr, gpa, .. } => {
                &&& self.device == device
                &&& host_addr % WINDOW_ALIGN == 0
                &&& self.at_gpa matches Some(at_gpa) ==> gpa == at_gpa
            },
            DaxPhase::Done => {
                ||| self.device == device && !device.lacks_window()
                ||| {
                    &&& device.lacks_window()
                    &&& self.device.dax_window matches Some(window)
                    &&& self.device == device.with_window(window)
                    &&& window.size == self.size
                    &&& window.host_addr % WINDOW_ALIGN == 0
                    &&& self.at_gpa matches Some(at_gpa) ==> window.gpa == at_gpa
                }
            },
            _ => self.device == device,
        }
        &&& self.pending() is Some ==> device.lacks_window()
    }

    proof fn lemma_run_first(self, replies: Seq<Result<u64, Fault>>)
        requires
            replies.len() > 0,
            self.pending() is Some,
        ensures
            self.run(replies) == self.step(replies[0]).run(replies.drop_first()),
            self.can_answer_all(replies) == (self.can_answer(replies[0]) && self.step(
                replies[0],
            ).can_answer_all(replies.drop_first())),
    {
    }

    proof fn lemma_stays_on_the_way(
        self,
        device: DeviceView,
        replies: Seq<Result<u64, Fault>>,
    )
        requires
            self.on_the_way(device),
            self.can_answer_all(replies),
        ensures
            self.run(replies).on_the_way(device),
            self.run(replies).size == self.size,
            self.run(replies).at_gpa == self.at_gpa,
        decreases replies.len(),
    {
        if replies.len() > 0 && self.pending() is Some {
            if let DaxPhase::MapHost(mapping) = self.phase {
                if let MappingPhase::MapMemfd { ptr } = mapping.phase {
                    law_window_cut_is_exact(ptr, mapping.size);
                }
            }
            self.step(replies[0]).lemma_stays_on_the_way(device, replies.drop_first());
        }
    }
}

/// Whatever the host answers, the creation of the window changes nothing of
/// the device but the window and the region that the guest sees; a failure
/// changes nothing at all. A finished creation has a window of the configured
/// size, aligned in the host address space, and a persisted guest address is
/// used as it is, without an allocation.
pub proof fn law_dax_window_creation(
    device: DeviceView,
    at_gpa: Option<u64>,
    replies: Seq<Result<u64, Fault>>,
)
    requires
        device.wf(),
        DaxSetupView::start(device, at_gpa).can_answer_all(replies),
    ensures
        ({
            let end = DaxSetupView::start(device, at_gpa).run(replies);
            &&& end.device.wf()
            &&& end.phase is Failed ==> end.device == device
            &&& at_gpa is Some ==> !(end.phase is AllocateGpa)
            &&& end.phase is Done && !device.lacks_window() ==> end.device == device
            &&& end.phase is Done && device.lacks_window() ==> {
                &&& end.device.dax_window matches Some(window)
                &&& end.device == device.with_window(window)
                &&& window.size == mib_in_bytes(device.dax_window_size_mib->0)
                &&& window.host_addr % WINDOW_ALIGN == 0
                &&& at_gpa matches Some(gpa) ==> window.gpa == gpa
            }
        }),
{
    DaxSetupView::start(device, at_gpa).lemma_stays_on_the_way(device, replies);
}

/// The answers by which the host lets the creation of a window of `size` bytes
/// succeed: the descriptor of the memfd, the start of the reservation, the
/// guest address if one is to be allocated, and the slot. The outcome of an
/// unmapping does not matter.
pub open spec fn dax_success_replies(
    size: u64,
    at_gpa: Option<u64>,
    fd: u64,
    ptr: u64,
    gpa: u64,
    slot: u64,
    ignored: Result<u64, Fault>,
) -> Seq<Result<u64, Fault>> {
    let layout = window_layout(ptr, size);
    let head: Seq<Result<u64, Fault>> = if layout.head_size > 0 {
        seq![ignored]
    } else {
        seq![]
    };
    let address: Seq<Result<u64, Fault>> = if at_gpa is None {
        seq![Ok(gpa)]
    } else {
        seq![]
    };
    seq![Ok(fd), Ok(0), Ok(ptr)] + head + seq![ignored, Ok(layout.addr)] + address + seq![Ok(slot)]
}

/// Where every call succeeds, a device with a configured window size gets the
/// window: backed by the created memfd, at the aligned part of the
/// reservation, at the persisted guest address or else the allocated one, in
/// the slot that the VM gave it.
#[verifier::rlimit(30)]
pub proof fn law_dax_window_created(
    device: DeviceView,
    at_gpa: Option<u64>,
    fd: u64,
    ptr: u64,
    gpa: u64,
    slot: u64,
    ignored: Result<u64, Fault>,
)
    requires
        device.lacks_window(),
        fd <= i32::MAX,
        slot <= u32::MAX,
        ptr + mib_in_bytes(device.dax_window_size_mib->0) + WINDOW_ALIGN <= u64::MAX,
    ensures
        ({
            let size = mib_in_bytes(device.dax_window_size_mib->0);
            let start = DaxSetupView::start(device, at_gpa);
            let replies = dax_success_replies(size, at_gpa, fd, ptr, gpa, slot, ignored);
            let end = start.run(replies);
            &&& start.can_answer_all(replies)
            &&& end.phase == DaxPhase::Done
            &&& end.device == device.with_window(
                DaxWindow {
                    memfd: fd as i32,
                    host_addr: align_up(ptr) as u64,
                    gpa: match at_gpa {
                        Some(at_gpa) => at_gpa,
                        None => gpa,
                    },
                    size,
                    kvm_slot: slot as u32,
                },
            )
        }),
{
    let size = mib_in_bytes(device.dax_window_size_mib->0);
    let layout = window_layout(ptr, size);
    let start = DaxSetupView::start(device, at_gpa);
    let replies = dax_success_replies(size, at_gpa, fd, ptr, gpa, slot, ignored);
    law_window_cut_is_exact(ptr, size);
    let rest1 = replies.drop_first();
    let rest2 = rest1.drop_first();
    let rest3 = rest2.drop_first();
    let rest4 = if layout.head_size > 0 {
        rest3.drop_first()
    } else {
        rest3
    };
    let rest5 = rest4.drop_first();
    let rest6 = rest5.drop_first();
    let rest7 = if at_gpa is None {
        rest6.drop_first()
    } else {
        rest6
    };
    assert(rest7 =~= seq![Ok::<u64, Fault>(slot)]);
    let reserved = start.step(Ok(fd)).step(Ok(0)).step(Ok(ptr));
    let trimmed = if layout.head_size > 0 {
        reserved.step(ignored)
    } else {
        reserved
    };
    let mapped = trimmed.step(ignored).step(Ok(layout.addr));
    start.lemma_run_first(replies);
    start.step(Ok(fd)).lemma_run_first(rest1);
    start.step(Ok(fd)).step(Ok(0)).lemma_run_first(rest2);
    if layout.head_size > 0 {
        reserved.lemma_run_first(rest3);
    }
    trimmed.lemma_run_first(rest4);
    trimmed.step(ignored).lemma_run_first(rest5);
    if at_gpa is None {
        mapped.lemma_run_first(rest6);
        mapped.step(Ok(gpa)).lemma_run_first(rest7);
    } else {
        mapped.lemma_run_first(rest7);
    }
}

impl DaxSetupView {
    /// The calls that are made while these answers are given in turn.
    pub open spec fn trace(self, replies: Seq<Result<u64, Fault>>) -> Seq<Call>
        decreases replies.len(),
    {
        if replies.len() == 0 {
            Seq::empty()
        } else {
            match self.pending() {
                Some(call) => seq![call] + self.step(replies[0]).trace(replies.drop_first()),
                None => Seq::empty(),
            }
        }
    }

    /// Whether these answers let the creation succeed, all of them needed.
    pub open spec fn completed_by(self, replies: Seq<Result<u64, Fault>>) -> bool
        decreases replies.len(),
    {
        if replies.len() == 0 {
            self.phase == DaxPhase::Done
        } else {
            &&& self.pending() is Some
            &&& self.step(replies[0]).completed_by(replies.drop_first())
        }
    }

    proof fn lemma_completed(self, replies: Seq<Result<u64, Fault>>)
        requires
            self.completed_by(replies),
            self.can_answer_all(replies),
            self.pending() is Some,
        ensures
            replies.len() > 0,
            self.can_answer(replies[0]),
            !(self.step(replies[0]).phase is Failed),
            self.step(replies[0]).completed_by(replies.drop_first()),
            self.step(replies[0]).can_answer_all(replies.drop_first()),
            self.run(replies) == self.step(replies[0]).run(replies.drop_first()),
            self.trace(replies) == seq![self.pending()->0] + self.step(replies[0]).trace(
                replies.drop_first(),
            ),
    {
        reveal_with_fuel(DaxSetupView::completed_by, 2);
    }

    /// A mapping that fails cannot end well any more.
    proof fn lemma_not_released(self, replies: Seq<Result<u64, Fault>>)
        requires
            self.phase matches DaxPhase::MapHost(mapping) && mapping.phase is Release,
        ensures
            !self.completed_by(replies),
    {
        reveal_with_fuel(DaxSetupView::completed_by, 3);
    }
}

proof fn lemma_mapping_flags()
    ensures
        PROT_READ | PROT_WRITE == 3,
        MAP_SHARED | MAP_FIXED == 0x11,
        MAP_PRIVATE | MAP_ANONYMOUS | MAP_NORESERVE == 0x4022,
{
    assert(1i32 | 2i32 == 3) by (bit_vector);
    assert(0x1i32 | 0x10i32 == 0x11) by (bit_vector);
    assert(0x2i32 | 0x20i32 | 0x4000i32 == 0x4022) by (bit_vector);
}

/// What the host is asked when a window is created, and what the window is
/// from the answers. It has the configured number of MiB in bytes. A memfd of
/// that length is created. Address space for it and 2 MiB more is reserved
/// without access; the window is the part of it that starts at the first
/// multiple of 2 MiB, and what lies before and behind is given back. The memfd
/// is mapped there from its start, shared, readable and writable. Guest
/// address space of that size and alignment is allocated, unless an address
/// was persisted. Last, the VM is given the window: exactly at its guest
/// address, its host address and with its size. The guest sees it as region 0.
/// Nothing else is asked, and nothing else of the device changes.
#[verifier::rlimit(60)]
#[verifier::spinoff_prover]
pub proof fn law_window_calls(
    device: DeviceView,
    at_gpa: Option<u64>,
    replies: Seq<Result<u64, Fault>>,
)
    requires
        device.lacks_window(),
        DaxSetupView::start(device, at_gpa).completed_by(replies),
        DaxSetupView::start(device, at_gpa).can_answer_all(replies),
    ensures
        ({
            let start = DaxSetupView::start(device, at_gpa);
            let calls = start.trace(replies);
            let after = start.run(replies).device;
            let window = after.dax_window->0;
            let size = window.size;
            let ptr = replies[2]->Ok_0;
            let head = window.host_addr - ptr;
            let mapped: int = if head > 0 {
                5
            } else {
                4
            };
            let registered: int = if at_gpa is None {
                mapped + 2
            } else {
                mapped + 1
            };
            &&& after.dax_window is Some
            &&& size == device.dax_window_size_mib->0 * 0x10_0000 % 0x1_0000_0000_0000_0000
            &&& calls.len() == replies.len() == registered + 1
            &&& calls[0] == Call::Host(HostCall::CreateMemfd { name: MemfdName::Dax })
            &&& replies[0] == Ok::<u64, Fault>(window.memfd as u64) && window.memfd >= 0
            &&& calls[1] == Call::Host(HostCall::SetMemfdLen { len: size })
            &&& replies[1] is Ok
            &&& calls[2] == Call::Host(
                HostCall::Mmap(
                    MmapArgs {
                        addr: 0,
                        len: (size + 0x20_0000) as u64,
                        prot: 0,
                        flags: 0x4022,
                        fd: -1i32,
                        offset: 0,
                    },
                ),
            )
            &&& replies[2] is Ok
            &&& window.host_addr % 0x20_0000 == 0
            &&& 0 <= head < 0x20_0000
            &&& head > 0 ==> calls[3] == Call::Host(
                HostCall::Munmap { addr: ptr, len: head as u64 },
            )
            &&& calls[mapped - 1] == Call::Host(
                HostCall::Munmap {
                    addr: (window.host_addr + size) as u64,
                    len: (0x20_0000 - head) as u64,
                },
            )
            &&& calls[mapped] == Call::Host(
                HostCall::Mmap(
                    MmapArgs {
                        addr: window.host_addr,
                        len: size,
                        prot: 3,
                        flags: 0x11,
                        fd: window.memfd,
                        offset: 0,
                    },
                ),
            )
            &&& replies[mapped] == Ok::<u64, Fault>(window.host_addr)
            &&& match at_gpa {
                Some(gpa) => window.gpa == gpa,
                None => {
                    &&& calls[mapped + 1] == Call::Vm(VmCall::AllocateGpa { size, align: size })
                    &&& replies[mapped + 1] == Ok::<u64, Fault>(window.gpa)
                },
            }
            &&& calls[registered] == Call::Vm(
                VmCall::RegisterMemoryRegion {
                    gpa: window.gpa,
                    host_addr: window.host_addr,
                    size: window.size,
                },
            )
            &&& replies[registered] == Ok::<u64, Fault>(window.kvm_slot as u64)
            &&& after == (DeviceView {
                dax_window: Some(window),
                shmem_region: Some(ShmemRegion { id: 0, len: window.size, gpa: window.gpa }),
                ..device
            })
        }),
{
    let start = DaxSetupView::start(device, at_gpa);
    lemma_mapping_flags();
    start.lemma_completed(replies);
    let created = start.step(replies[0]);
    let rest1 = replies.drop_first();
    created.lemma_completed(rest1);
    let sized = created.step(replies[1]);
    let rest2 = rest1.drop_first();
    sized.lemma_completed(rest2);
    let reserved = sized.step(replies[2]);
    let rest3 = rest2.drop_first();
    let ptr = replies[2]->Ok_0;
    law_window_cut_is_exact(ptr, start.size);
    let layout = window_layout(ptr, start.size);
    reserved.lemma_completed(rest3);
    let trimmed = if layout.head_size > 0 {
        reserved.step(rest3[0])
    } else {
        reserved
    };
    let rest4 = if layout.head_size > 0 {
        rest3.drop_first()
    } else {
        rest3
    };
    trimmed.lemma_completed(rest4);
    let cut = trimmed.step(rest4[0]);
    let rest5 = rest4.drop_first();
    cut.lemma_completed(rest5);
    let mapped = cut.step(rest5[0]);
    let rest6 = rest5.drop_first();
    if rest5[0] is Err {
        mapped.lemma_not_released(rest6);
    }
    mapped.lemma_completed(rest6);
    let placed = if at_gpa is None {
        mapped.step(rest6[0])
    } else {
        mapped
    };
    let rest7 = if at_gpa is None {
        rest6.drop_first()
    } else {
        rest6
    };
    placed.lemma_completed(rest7);
    let done = placed.step(rest7[0]);
    assert(done.phase == DaxPhase::Done);
    assert(rest7.drop_first().len() == 0);
    assert(done.trace(rest7.drop_first()) =~= Seq::empty());
    assert(done.run(rest7.drop_first()) == done);
}

/// Whenever a window creation ends with a new window, the last call has given
/// the VM exactly that window, which is what the guest sees; a persisted
/// address is where it is.
pub proof fn law_registered_memory_is_the_window(
    device: DeviceView,
    at_gpa: Option<u64>,
    replies: Seq<Result<u64, Fault>>,
)
    requires
        device.lacks_window(),
        DaxSetupView::start(device, at_gpa).completed_by(replies),
        DaxSetupView::start(device, at_gpa).can_answer_all(replies),
    ensures
        ({
            let calls = DaxSetupView::start(device, at_gpa).trace(replies);
            let after = DaxSetupView::start(device, at_gpa).run(replies).device;
            &&& after.dax_window matches Some(window)
            &&& after.shmem_region matches Some(region)
            &&& calls.len() > 0
            &&& calls.last() == Call::Vm(
                VmCall::RegisterMemoryRegion {
                    gpa: window.gpa,
                    host_addr: window.host_addr,
                    size: window.size,
                },
            )
            &&& region.gpa == window.gpa
            &&& region.len == window.size
            &&& at_gpa matches Some(gpa) ==> window.gpa == gpa
        }),
{
    law_window_calls(device, at_gpa, replies);
}

/// The error of a window creation names the call that failed, and nothing else
/// follows; only a mapping of the memfd that fails is followed by giving the
/// reservation back. A creation never fails but by a fault.
pub proof fn law_window_error_names_call(
    setup: DaxSetupView,
    fault: Fault,
    value: u64,
    ignored: Result<u64, Fault>,
)
    requires
        setup.wf(),
    ensures
        ({
            let failed = setup.step(Err(fault));
            &&& match setup.pending() {
                Some(Call::Host(HostCall::CreateMemfd { .. })) => failed.phase
                    == DaxPhase::Failed(VhostUserFsError::Memfd(fault)),
                Some(Call::Host(HostCall::SetMemfdLen { .. })) => failed.phase
                    == DaxPhase::Failed(VhostUserFsError::MemfdSetLen(fault)),
                Some(Call::Host(HostCall::Munmap { .. })) => failed == setup.step(Ok(value)),
                Some(Call::Host(HostCall::Mmap(args))) => if args.flags == 0x11 {
                    &&& failed.pending() == Some(
                        Call::Host(HostCall::Munmap { addr: args.addr, len: args.len }),
                    )
                    &&& failed.step(ignored).phase == DaxPhase::Failed(
                        VhostUserFsError::Mmap(fault),
                    )
                } else {
                    failed.phase == DaxPhase::Failed(VhostUserFsError::Mmap(fault))
                },
                Some(Call::Vm(VmCall::AllocateGpa { .. })) => failed.phase == DaxPhase::Failed(
                    VhostUserFsError::ResourceAllocator(fault),
                ),
                Some(Call::Vm(VmCall::RegisterMemoryRegion { .. })) => failed.phase
                    == DaxPhase::Failed(VhostUserFsError::Vm(fault)),
                Some(_) => false,
                None => setup.phase is Done || setup.phase is Failed,
            }
            &&& failed.device == setup.device || setup.pending() is None
            &&& setup.pending() is Some && setup.step(Ok(value)).phase is Failed ==> setup.pending()
                is Some && setup.pending()->0 is Host && setup.pending()->0->Host_0 is Munmap
        }),
{
    lemma_mapping_flags();
}

/// Without a configured size, or with a window in place, no call is made and
/// nothing changes; else there is something to do.
pub proof fn law_window_is_created_once(device: DeviceView, at_gpa: Option<u64>)
    ensures
        DaxSetupView::start(device, at_gpa).device == device,
        DaxSetupView::start(device, at_gpa).pending() is Some <==> {
            &&& device.dax_window_size_mib is Some
            &&& device.dax_window is None
        },
        DaxSetupView::start(device, at_gpa).pending() is None ==> DaxSetupView::start(
            device,
            at_gpa,
        ).phase == DaxPhase::Done,
{
}

/// What is told of the creation of a window is what it holds.
pub proof fn law_view_is_the_window_creation(setup: DaxSetup)
    ensures
        setup@.device == setup.device@,
        setup@.at_gpa == setup.at_gpa,
        setup@.size == setup.size,
        setup@.phase == setup.phase,
{
}

} // verus!
