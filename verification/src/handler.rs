//! Serving the requests that the backend sends for the DAX window.

use vstd::prelude::*;

use crate::device::VIRTIO_FS_SHMCAP_ID_CACHE;
use crate::error::{Fault, HandlerError};
use crate::outside::{
    map_anonymous, map_fixed, map_private, map_shared, pollin, prot_none, prot_read, prot_write,
    should_reconnect, writable, MAP_ANONYMOUS, MAP_FIXED, MAP_PRIVATE, MAP_SHARED, POLLIN,
    PROT_NONE, PROT_READ, PROT_WRITE, WRITABLE,
};
use crate::request::MmapArgs;

verus! {

/// The granularity of mappings.
pub const PAGE: u64 = 4096;

/// A request to map a part of a file into the window, or to unmap it.
#[derive(Clone, Copy, Debug, PartialEq, Eq, Structural)]
pub struct MmapRequest {
    /// The shared-memory region.
    pub shmid: u8,
    /// Where the part starts in the file.
    pub fd_offset: u64,
    /// Where the part starts in the window.
    pub shm_offset: u64,
    /// The length of the part.
    pub len: u64,
    /// How it is to be mapped.
    pub flags: u64,
}

impl MmapRequest {
    pub open spec fn page_aligned(self) -> bool {
        &&& self.shm_offset % PAGE == 0
        &&& self.len % PAGE == 0
        &&& self.fd_offset % PAGE == 0
    }

    /// What mapping has to allow.
    pub open spec fn prot(self) -> i32 {
        if self.flags & WRITABLE != 0 {
            PROT_READ | PROT_WRITE
        } else {
            PROT_READ
        }
    }
}

/// Handler for vhost-user backend requests related to the DAX window.
#[derive(Clone, Copy, Debug, PartialEq, Eq, Structural)]
pub struct VhostUserFsReqHandler {
    pub window_host_addr: u64,
    pub window_size: u64,
}

impl VhostUserFsReqHandler {
    /// The window lies in the host address space.
    pub open spec fn wf(self) -> bool {
        self.window_host_addr + self.window_size <= u64::MAX
    }

    /// The part of the window that a request names, or why it names none.
    pub open spec fn checked(self, req: MmapRequest) -> Result<(u64, u64), HandlerError> {
        if req.shmid != VIRTIO_FS_SHMCAP_ID_CACHE {
            Err(HandlerError::UnsupportedShmemId)
        } else if !req.page_aligned() {
            Err(HandlerError::NotPageAligned)
        } else if req.shm_offset + req.len > u64::MAX {
            Err(HandlerError::Overflow)
        } else if req.shm_offset + req.len > self.window_size {
            Err(HandlerError::OutOfBounds)
        } else {
            Ok((req.shm_offset, req.len))
        }
    }

    /// The mapping that a map request asks for.
    pub open spec fn map_args(self, req: MmapRequest, fd: i32) -> Result<MmapArgs, HandlerError> {
        match self.checked(req) {
            Err(error) => Err(error),
            Ok(_) => if req.fd_offset > i64::MAX {
                Err(HandlerError::FdOffsetOverflow)
            } else {
                Ok(
                    MmapArgs {
                        addr: (self.window_host_addr + req.shm_offset) as u64,
                        len: req.len,
                        prot: req.prot(),
                        flags: MAP_SHARED | MAP_FIXED,
                        fd,
                        offset: req.fd_offset as i64,
                    },
                )
            },
        }
    }

    /// The mapping that an unmap request asks for: nothing can be accessed,
    /// and the range stays reserved.
    pub open spec fn unmap_args(self, req: MmapRequest) -> Result<MmapArgs, HandlerError> {
        match self.checked(req) {
            Err(error) => Err(error),
            Ok(_) => Ok(
                MmapArgs {
                    addr: (self.window_host_addr + req.shm_offset) as u64,
                    len: req.len,
                    prot: PROT_NONE,
                    flags: MAP_PRIVATE | MAP_ANONYMOUS | MAP_FIXED,
                    fd: -1i32,
                    offset: 0,
                },
            ),
        }
    }

    pub fn validate_mmap_request(&self, req: &MmapRequest) -> (part: Result<
        (u64, u64),
        HandlerError,
    >)
        ensures
            part == self.checked(*req),
    {
        if req.shmid != VIRTIO_FS_SHMCAP_ID_CACHE {
            return Err(HandlerError::UnsupportedShmemId);
        }
        // Page granularity is the real constraint (mmap); the 2 MiB FUSE
        // mapping unit is the guest's own allocation granularity and does
        // not constrain the host-side map. The backend's tail clamps and
        // blob-cache offsets are page-aligned, not 2 MiB-aligned.
        if !req.shm_offset.is_multiple_of(PAGE) || !req.len.is_multiple_of(PAGE)
            || !req.fd_offset.is_multiple_of(PAGE) {
            return Err(HandlerError::NotPageAligned);
        }
        match req.shm_offset.checked_add(req.len) {
            None => Err(HandlerError::Overflow),
            Some(end) => {
                if end > self.window_size {
                    return Err(HandlerError::OutOfBounds);
                }
                Ok((req.shm_offset, req.len))
            },
        }
    }

    /// The mapping that makes a part of the file `fd` visible in the window.
    /// Read-only mappings map read-only: a shared writable mapping of the
    /// backend's read-only file would be refused.
    pub fn shmem_map(&self, req: &MmapRequest, fd: i32) -> (args: Result<MmapArgs, HandlerError>)
        requires
            self.wf(),
        ensures
            args == self.map_args(*req, fd),
    {
        let (offset, len) = match self.validate_mmap_request(req) {
            Ok(part) => part,
            Err(error) => {
                return Err(error);
            },
        };
        let prot: i32 = if req.flags & writable() != 0 {
            prot_read() | prot_write()
        } else {
            prot_read()
        };
        if req.fd_offset > i64::MAX as u64 {
            return Err(HandlerError::FdOffsetOverflow);
        }
        Ok(
            MmapArgs {
                addr: self.window_host_addr + offset,
                len,
                prot,
                flags: map_shared() | map_fixed(),
                fd,
                offset: req.fd_offset as i64,
            },
        )
    }

    /// The mapping that takes a part of the window back. Replacing it with an
    /// anonymous mapping without access keeps the address range reserved.
    pub fn shmem_unmap(&self, req: &MmapRequest) -> (args: Result<MmapArgs, HandlerError>)
        requires
            self.wf(),
        ensures
            args == self.unmap_args(*req),
    {
        let (offset, len) = match self.validate_mmap_request(req) {
            Ok(part) => part,
            Err(error) => {
                return Err(error);
            },
        };
        Ok(
            MmapArgs {
                addr: self.window_host_addr + offset,
                len,
                prot: prot_none(),
                flags: map_private() | map_anonymous() | map_fixed(),
                fd: -1,
                offset: 0,
            },
        )
    }

    /// What the backend is answered once the mapping has been tried.
    pub open spec fn answered(mapped: Result<u64, Fault>) -> Result<u64, HandlerError> {
        match mapped {
            Ok(_) => Ok(0),
            Err(fault) => Err(HandlerError::Os(fault)),
        }
    }

    /// What the backend is answered once the mapping has been tried: 0, or
    /// the fault of the mapping.
    pub fn answer(mapped: Result<u64, Fault>) -> (reply: Result<u64, HandlerError>)
        ensures
            reply == Self::answered(mapped),
    {
        match mapped {
            Ok(_) => Ok(0),
            Err(fault) => Err(HandlerError::Os(fault)),
        }
    }
}

/// Every mapping that the handler makes on request of the backend lies in the
/// window, and in a page-aligned window it is page-aligned.
pub proof fn law_mappings_stay_in_window(
    handler: VhostUserFsReqHandler,
    req: MmapRequest,
    fd: i32,
    args: MmapArgs,
)
    requires
        handler.wf(),
        handler.map_args(req, fd) == Ok::<_, HandlerError>(args) || handler.unmap_args(req)
            == Ok::<_, HandlerError>(args),
    ensures
        handler.window_host_addr <= args.addr,
        args.addr + args.len <= handler.window_host_addr + handler.window_size,
        handler.window_host_addr % PAGE == 0 ==> args.addr % PAGE == 0 && args.len % PAGE == 0,
{
}

/// What a request maps, the same request unmaps: the unmapping is granted and
/// covers exactly the mapped range.
pub proof fn law_unmap_covers_map(handler: VhostUserFsReqHandler, req: MmapRequest, fd: i32)
    requires
        handler.map_args(req, fd) is Ok,
    ensures
        handler.unmap_args(req) matches Ok(unmapped) && handler.map_args(req, fd) matches Ok(mapped)
            && unmapped.addr == mapped.addr && unmapped.len == mapped.len,
{
}

proof fn lemma_mapping_bits(flags: u64)
    ensures
        PROT_READ | PROT_WRITE == 3,
        MAP_SHARED | MAP_FIXED == 0x11,
        MAP_PRIVATE | MAP_ANONYMOUS | MAP_FIXED == 0x32,
        flags & WRITABLE != 0 <==> flags % 2 == 1,
{
    assert(1i32 | 2i32 == 3) by (bit_vector);
    assert(0x1i32 | 0x10i32 == 0x11) by (bit_vector);
    assert(0x2i32 | 0x20i32 | 0x10i32 == 0x32) by (bit_vector);
    assert(flags & 0x1u64 != 0 <==> flags % 2 == 1) by (bit_vector);
}

/// The host address at which a mapping shows the given byte of its file.
pub open spec fn shown_at(args: MmapArgs, file_byte: int) -> int {
    args.addr + (file_byte - args.offset)
}

/// A granted map request shows the guest exactly the part of the file it asked
/// for, at exactly the place in the window it named: byte `k` of the part is
/// byte `fd_offset + k` of the file behind `fd`, and stands `shm_offset + k`
/// bytes behind the start of the window. The mapping is as long as the part,
/// shared, at a fixed place, readable, and writable exactly if the lowest flag
/// of the request is set.
pub proof fn law_map_shows_the_requested_part(
    handler: VhostUserFsReqHandler,
    req: MmapRequest,
    fd: i32,
    args: MmapArgs,
)
    requires
        handler.wf(),
        handler.map_args(req, fd) == Ok::<_, HandlerError>(args),
    ensures
        args.fd == fd,
        args.len == req.len,
        args.offset == req.fd_offset,
        args.addr - handler.window_host_addr == req.shm_offset,
        forall|k: int|
            0 <= k < req.len ==> #[trigger] shown_at(args, req.fd_offset + k)
                == handler.window_host_addr + req.shm_offset + k,
        args.flags == 0x11,
        args.prot == if req.flags % 2 == 1 {
            3i32
        } else {
            1i32
        },
{
    lemma_mapping_bits(req.flags);
}

/// A granted unmap request takes exactly the named part of the window: what
/// stands there afterwards is a private anonymous mapping at a fixed place,
/// backed by no file and open to no access.
pub proof fn law_unmap_takes_the_requested_part(
    handler: VhostUserFsReqHandler,
    req: MmapRequest,
    args: MmapArgs,
)
    requires
        handler.wf(),
        handler.unmap_args(req) == Ok::<_, HandlerError>(args),
    ensures
        args.addr - handler.window_host_addr == req.shm_offset,
        args.len == req.len,
        args.prot == 0,
        args.flags == 0x32,
        args.fd == -1,
        args.offset == 0,
{
    lemma_mapping_bits(req.flags);
}

/// A map request is granted exactly if it names the cache window, starts and
/// ends on 4 KiB pages in the window and starts on one in the file, lies in the
/// window, and has a file offset that the host can express. An unmap request
/// is granted under the same conditions but the last.
pub proof fn law_requests_are_granted(handler: VhostUserFsReqHandler, req: MmapRequest, fd: i32)
    ensures
        handler.unmap_args(req) is Ok <==> {
            &&& req.shmid == 0
            &&& req.shm_offset as int % 4096 == 0
            &&& req.len as int % 4096 == 0
            &&& req.fd_offset as int % 4096 == 0
            &&& req.shm_offset + req.len <= handler.window_size
        },
        handler.map_args(req, fd) is Ok <==> handler.unmap_args(req) is Ok && req.fd_offset
            < 0x8000_0000_0000_0000,
{
}

/// A request that is refused is refused for a reason that it gave: the first
/// of its region, its alignment, an end that cannot be expressed, an end behind
/// the window and, for a map request, a file offset that cannot be expressed.
pub proof fn law_refusals_name_their_reason(
    handler: VhostUserFsReqHandler,
    req: MmapRequest,
    fd: i32,
    error: HandlerError,
)
    requires
        handler.map_args(req, fd) == Err::<MmapArgs, _>(error),
    ensures
        ({
            let aligned = req.shm_offset as int % 4096 == 0 && req.len as int % 4096 == 0
                && req.fd_offset as int % 4096 == 0;
            let end = req.shm_offset + req.len;
            &&& error == HandlerError::UnsupportedShmemId <==> req.shmid != 0
            &&& error == HandlerError::NotPageAligned <==> req.shmid == 0 && !aligned
            &&& error == HandlerError::Overflow <==> req.shmid == 0 && aligned && end
                >= 0x1_0000_0000_0000_0000
            &&& error == HandlerError::OutOfBounds <==> req.shmid == 0 && aligned
                && handler.window_size < end < 0x1_0000_0000_0000_0000
            &&& error == HandlerError::FdOffsetOverflow <==> req.shmid == 0 && aligned && end
                <= handler.window_size && req.fd_offset >= 0x8000_0000_0000_0000
            &&& !(error is Os)
        }),
        error != HandlerError::FdOffsetOverflow ==> handler.unmap_args(req) == Err::<MmapArgs, _>(
            error,
        ),
{
}

/// Two granted map requests for parts of the window that do not overlap lead to
/// mappings that do not overlap.
pub proof fn law_disjoint_parts_stay_disjoint(
    handler: VhostUserFsReqHandler,
    req1: MmapRequest,
    fd1: i32,
    args1: MmapArgs,
    req2: MmapRequest,
    fd2: i32,
    args2: MmapArgs,
)
    requires
        handler.wf(),
        handler.map_args(req1, fd1) == Ok::<_, HandlerError>(args1),
        handler.map_args(req2, fd2) == Ok::<_, HandlerError>(args2),
        req1.shm_offset + req1.len <= req2.shm_offset,
    ensures
        args1.addr + args1.len <= args2.addr,
{
}

/// The backend is answered 0 exactly if the mapping was made, wherever it is;
/// else it learns the fault, in the words and with the error number of the host.
pub proof fn law_answers(mapped: Result<u64, Fault>)
    ensures
        mapped is Ok <==> VhostUserFsReqHandler::answered(mapped) == Ok::<_, HandlerError>(0u64),
        mapped matches Err(fault) ==> {
            &&& VhostUserFsReqHandler::answered(mapped) matches Err(error)
            &&& error.text() == fault.reason@
            &&& error.os_error() == fault.os_error
        },
{
}

/// What has happened to the thread that serves the backend.
#[derive(Clone, Copy, Debug, PartialEq, Eq, Structural)]
pub enum ReqThreadEvent {
    /// It has started.
    Started,
    /// Polling has returned, with the events of the request channel and of
    /// the stop eventfd.
    Polled { ret: i32, handler_revents: i16, stop_revents: i16 },
    /// A request has been served.
    Handled,
    /// A request has failed.
    Failed { should_reconnect: bool },
}

/// What the thread that serves the backend does next.
#[derive(Clone, Copy, Debug, PartialEq, Eq, Structural)]
pub enum ReqThreadStep {
    /// Poll the request channel and the stop eventfd for these events, for
    /// as long as it takes.
    Poll { events: i16, timeout: i32 },
    /// Serve one request of the channel.
    HandleRequest,
    Exit,
}

/// The thread polls until it is told to stop or polling fails, and serves a
/// request whenever there is one. A failed request must not kill the channel,
/// only a broken socket is fatal.
pub open spec fn req_thread_step(event: ReqThreadEvent) -> ReqThreadStep {
    let poll = ReqThreadStep::Poll { events: POLLIN, timeout: -1i32 };
    match event {
        ReqThreadEvent::Started | ReqThreadEvent::Handled => poll,
        ReqThreadEvent::Polled { ret, handler_revents, stop_revents } => if ret < 0 || stop_revents
            != 0 {
            ReqThreadStep::Exit
        } else if handler_revents & POLLIN != 0 {
            ReqThreadStep::HandleRequest
        } else {
            poll
        },
        ReqThreadEvent::Failed { should_reconnect } => if should_reconnect {
            ReqThreadStep::Exit
        } else {
            poll
        },
    }
}

/// What the thread that serves the backend does after the given event.
pub fn backend_req_thread(event: ReqThreadEvent) -> (step: ReqThreadStep)
    ensures
        step == req_thread_step(event),
{
    let poll = ReqThreadStep::Poll { events: pollin(), timeout: -1 };
    match event {
        ReqThreadEvent::Started | ReqThreadEvent::Handled => poll,
        ReqThreadEvent::Polled { ret, handler_revents, stop_revents } => {
            if ret < 0 {
                return ReqThreadStep::Exit;
            }
            if stop_revents != 0 {
                return ReqThreadStep::Exit;
            }
            if handler_revents & pollin() != 0 {
                return ReqThreadStep::HandleRequest;
            }
            poll
        },
        ReqThreadEvent::Failed { should_reconnect } => {
            // A failed request (bad mmap params, decode error) must not
            // kill the channel — only a broken socket is fatal.
            if should_reconnect {
                ReqThreadStep::Exit
            } else {
                poll
            }
        },
    }
}

/// The thread ends exactly if polling fails, if it is told to stop, or if the
/// connection is lost. A request that fails otherwise does not end it.
pub proof fn law_thread_ends(event: ReqThreadEvent)
    ensures
        req_thread_step(event) == ReqThreadStep::Exit <==> match event {
            ReqThreadEvent::Polled { ret, stop_revents, .. } => ret < 0 || stop_revents != 0,
            ReqThreadEvent::Failed { should_reconnect } => should_reconnect,
            _ => false,
        },
{
}

/// A request is served exactly after polling has reported that the channel can
/// be read and nothing asked the thread to stop.
pub proof fn law_thread_serves_readable_channel(event: ReqThreadEvent)
    ensures
        req_thread_step(event) == ReqThreadStep::HandleRequest <==> match event {
            ReqThreadEvent::Polled { ret, handler_revents, stop_revents } => ret >= 0
                && stop_revents == 0 && handler_revents as int % 2 == 1,
            _ => false,
        },
        req_thread_step(event) matches ReqThreadStep::Poll { events, timeout } ==> events == 1
            && timeout == -1,
        req_thread_step(event) is Poll <==> match event {
            ReqThreadEvent::Started | ReqThreadEvent::Handled => true,
            ReqThreadEvent::Polled { ret, handler_revents, stop_revents } => ret >= 0
                && stop_revents == 0 && handler_revents as int % 2 == 0,
            ReqThreadEvent::Failed { should_reconnect } => !should_reconnect,
        },
{
    if let ReqThreadEvent::Polled { handler_revents, .. } = event {
        assert(handler_revents & 0x1i16 != 0 <==> (handler_revents + 0x8000) % 2 == 1)
            by (bit_vector);
    }
}

/// What the thread that serves the backend does after a request has failed.
pub fn after_failed_request(error: &vhost::vhost_user::Error) -> (step: ReqThreadStep)
    ensures
        step == req_thread_step(
            (ReqThreadEvent::Failed { should_reconnect: crate::outside::reconnects(*error) }),
        ),
{
    backend_req_thread(ReqThreadEvent::Failed { should_reconnect: should_reconnect(error) })
}

} // verus!
