//! The DAX window: creating it, and mapping files into it.

use vhost::vhost_user::Error;
use vhost_user_fs::config::VhostUserFsConfig;
use vhost_user_fs::dax::{
    cut_reservation, mib_to_bytes, DaxSetup, MappingPhase, WindowLayout, WindowMapping,
};
use vhost_user_fs::device::{DaxWindow, ShmemRegion, VhostUserFsImpl};
use vhost_user_fs::error::{Fault, HandlerError, VhostUserFsError};
use vhost_user_fs::handler::{
    after_failed_request, backend_req_thread, MmapRequest, ReqThreadEvent, ReqThreadStep,
    VhostUserFsReqHandler,
};
use vhost_user_fs::request::{HostCall, MemfdName, MmapArgs, Request, VmCall};

const TWO_MIB: u64 = 2 * 1024 * 1024;

fn fault(reason: &str) -> Fault {
    Fault {
        reason: reason.to_string(),
        os_error: None,
    }
}

fn handler() -> VhostUserFsReqHandler {
    VhostUserFsReqHandler {
        window_host_addr: 0x7f00_0000_0000,
        window_size: 4 * TWO_MIB,
    }
}

fn mmap_req(shmid: u8, shm_offset: u64, len: u64) -> MmapRequest {
    MmapRequest {
        shmid,
        fd_offset: 0,
        shm_offset,
        len,
        flags: 0,
    }
}

#[test]
fn test_shmem_map_wrong_shmid() {
    let req = mmap_req(1, 0, TWO_MIB);
    assert!(handler().shmem_map(&req, -1).is_err());
    assert_eq!(
        handler().shmem_unmap(&req),
        Err(HandlerError::UnsupportedShmemId)
    );
}

#[test]
fn test_shmem_map_misaligned() {
    // shm_offset not 2 MiB aligned.
    let req = mmap_req(0, TWO_MIB + 1, TWO_MIB);
    assert!(handler().shmem_map(&req, -1).is_err());
    // len not 2 MiB aligned.
    let req = mmap_req(0, 0, TWO_MIB + 1);
    assert!(handler().shmem_map(&req, -1).is_err());
}

#[test]
fn test_shmem_map_out_of_bounds() {
    let req = mmap_req(0, 2 * TWO_MIB, 4 * TWO_MIB);
    assert!(handler().shmem_map(&req, -1).is_err());
}

#[test]
fn test_shmem_map_unmap_happy_path() {
    let memfd = memfd::MemfdOptions::default().create("test_dax").unwrap();
    memfd.as_file().set_len(TWO_MIB).unwrap();
    // The file shows itself as "File { fd: <number>, ...".
    let shown = format!("{:?}", memfd.as_file());
    let number = shown["File { fd: ".len()..].split(',').next().unwrap();
    let fd: i32 = number.parse().unwrap();

    let req = mmap_req(0, 0, TWO_MIB);
    let args = handler().shmem_map(&req, fd).unwrap();
    assert_eq!(args.fd, fd);
    assert_eq!(args.len, memfd.as_file().metadata().unwrap().len());
    assert_eq!(VhostUserFsReqHandler::answer(Ok(args.addr)).unwrap(), 0);
    let args = handler().shmem_unmap(&req).unwrap();
    assert_eq!(VhostUserFsReqHandler::answer(Ok(args.addr)).unwrap(), 0);
}

#[test]
fn mappings_are_shared_and_fixed() {
    let mut req = mmap_req(0, 0x3000, 0x2000);
    req.fd_offset = 0x5000;
    assert_eq!(
        handler().shmem_map(&req, 9),
        Ok(MmapArgs {
            addr: 0x7f00_0000_3000,
            len: 0x2000,
            prot: 1,
            flags: 0x11,
            fd: 9,
            offset: 0x5000,
        })
    );
    // A writable mapping says so, by its lowest flag.
    req.flags = 1;
    assert_eq!(handler().shmem_map(&req, 9).unwrap().prot, 3);
    req.flags = 2;
    assert_eq!(handler().shmem_map(&req, 9).unwrap().prot, 1);
    // The same range is unmapped, and stays reserved.
    assert_eq!(
        handler().shmem_unmap(&req),
        Ok(MmapArgs {
            addr: 0x7f00_0000_3000,
            len: 0x2000,
            prot: 0,
            flags: 0x32,
            fd: -1,
            offset: 0,
        })
    );
}

#[test]
fn bad_mappings_are_told_apart() {
    let mut req = mmap_req(0, 0x1000, 0x1000);
    req.fd_offset = 1;
    let error = handler().shmem_map(&req, 9).unwrap_err();
    assert_eq!(error, HandlerError::NotPageAligned);
    assert_eq!(error.message(), "DAX window mapping must be page aligned");

    let req = mmap_req(0, 0xffff_ffff_ffff_f000, 0x1000);
    let error = handler().shmem_unmap(&req).unwrap_err();
    assert_eq!(error, HandlerError::Overflow);
    assert_eq!(error.message(), "overflow");

    let req = mmap_req(0, 4 * TWO_MIB, 0x1000);
    let error = handler().shmem_map(&req, 9).unwrap_err();
    assert_eq!(error, HandlerError::OutOfBounds);
    assert_eq!(error.message(), "DAX window mapping out of bounds");
    // The end of the window itself is in bounds.
    let req = mmap_req(0, 4 * TWO_MIB - 0x1000, 0x1000);
    assert_eq!(
        handler().validate_mmap_request(&req),
        Ok((4 * TWO_MIB - 0x1000, 0x1000))
    );

    let mut req = mmap_req(0, 0, 0x1000);
    req.fd_offset = 1 << 63;
    let error = handler().shmem_map(&req, 9).unwrap_err();
    assert_eq!(error, HandlerError::FdOffsetOverflow);
    assert_eq!(error.message(), "fd offset overflow");

    let error = handler().shmem_map(&mmap_req(7, 0, 0), 9).unwrap_err();
    assert_eq!(error.message(), "unsupported shmem id");
    let error = VhostUserFsReqHandler::answer(Err(fault("EACCES"))).unwrap_err();
    assert_eq!(error, HandlerError::Os(fault("EACCES")));
    assert_eq!(error.message(), "EACCES");
    assert_eq!(error.raw_os_error(), None);
    // The number of the operating system is kept for the answer.
    let mapped = Err(Fault {
        reason: "EACCES".to_string(),
        os_error: Some(13),
    });
    let error = VhostUserFsReqHandler::answer(mapped).unwrap_err();
    assert_eq!(error.raw_os_error(), Some(13));
    assert_eq!(HandlerError::Overflow.raw_os_error(), None);
}

#[test]
fn only_a_broken_socket_or_a_stop_ends_the_thread() {
    let poll = ReqThreadStep::Poll {
        events: 1,
        timeout: -1,
    };
    let polled = |ret, handler_revents, stop_revents| {
        backend_req_thread(ReqThreadEvent::Polled {
            ret,
            handler_revents,
            stop_revents,
        })
    };
    assert_eq!(backend_req_thread(ReqThreadEvent::Started), poll);
    assert_eq!(polled(-1, 1, 0), ReqThreadStep::Exit);
    assert_eq!(polled(2, 1, 1), ReqThreadStep::Exit);
    assert_eq!(polled(1, 0, 8), ReqThreadStep::Exit);
    assert_eq!(polled(1, 1, 0), ReqThreadStep::HandleRequest);
    assert_eq!(polled(1, 0x11, 0), ReqThreadStep::HandleRequest);
    assert_eq!(polled(1, 0x10, 0), poll);
    assert_eq!(backend_req_thread(ReqThreadEvent::Handled), poll);
    assert_eq!(
        backend_req_thread(ReqThreadEvent::Failed {
            should_reconnect: false
        }),
        poll
    );
    assert_eq!(
        backend_req_thread(ReqThreadEvent::Failed {
            should_reconnect: true
        }),
        ReqThreadStep::Exit
    );
}

#[test]
fn failed_requests_are_classified() {
    let poll = backend_req_thread(ReqThreadEvent::Handled);
    assert_eq!(after_failed_request(&Error::InvalidMessage), poll);
    assert_eq!(after_failed_request(&Error::Disconnected), poll);
    assert_eq!(
        after_failed_request(&Error::ReqHandlerError(std::io::Error::other("refused"))),
        poll
    );
    assert_eq!(
        after_failed_request(&Error::PartialMessage),
        ReqThreadStep::Exit
    );
    assert_eq!(
        after_failed_request(&Error::SocketBroken(std::io::Error::other("gone"))),
        ReqThreadStep::Exit
    );
}

#[test]
fn mebibytes_are_shifted() {
    assert_eq!(mib_to_bytes(2), TWO_MIB);
    assert_eq!(mib_to_bytes(0), 0);
    // Bits that do not fit are lost.
    assert_eq!(mib_to_bytes((1 << 44) + 3), 3 << 20);
}

#[test]
fn reservations_are_cut_exactly() {
    assert_eq!(
        cut_reservation(0x10_0000, 0x40_0000),
        WindowLayout {
            addr: 0x20_0000,
            head_size: 0x10_0000,
            tail_size: 0x10_0000,
        }
    );
    // An aligned reservation has no head.
    assert_eq!(
        cut_reservation(0x40_0000, 0x1000),
        WindowLayout {
            addr: 0x40_0000,
            head_size: 0,
            tail_size: 0x20_0000,
        }
    );
}

fn device(dax_window_size_mib: Option<u64>) -> VhostUserFsImpl {
    let mut opening = VhostUserFsImpl::new(VhostUserFsConfig {
        fs_id: "test_fs".to_string(),
        socket: "sock".to_string(),
        tag: "tag".to_string(),
        num_request_queues: 1,
        dax_window_size_mib,
    });
    while opening.pending().is_some() {
        opening = opening.complete(Ok(0));
    }
    opening.finish().unwrap()
}

/// Answers the creation of a window, with a fault at one place if asked to.
fn answer(
    mut setup: DaxSetup,
    ptr: u64,
    failing: Option<usize>,
) -> (VhostUserFsImpl, Result<(), VhostUserFsError>, Vec<Request>) {
    let mut asked = Vec::new();
    while let Some(request) = setup.pending() {
        let reply = if failing == Some(asked.len()) {
            Err(fault("no"))
        } else {
            match &request {
                Request::Host(HostCall::CreateMemfd { .. }) => Ok(5),
                Request::Host(HostCall::Mmap(args)) if args.addr == 0 => Ok(ptr),
                Request::Host(HostCall::Mmap(args)) => Ok(args.addr),
                Request::Vm(VmCall::AllocateGpa { .. }) => Ok(0x80_0000_0000),
                Request::Vm(_) => Ok(6),
                _ => Ok(0),
            }
        };
        asked.push(request);
        setup = setup.complete(reply);
    }
    let (device, result) = setup.finish();
    (device, result, asked)
}

#[test]
fn window_is_created_aligned() {
    let setup = device(Some(4)).create_dax_window(None);
    let (device, result, asked) = answer(setup, 0x7f00_0010_0000, None);
    result.unwrap();
    assert_eq!(
        asked,
        vec![
            Request::Host(HostCall::CreateMemfd {
                name: MemfdName::Dax
            }),
            Request::Host(HostCall::SetMemfdLen { len: 0x40_0000 }),
            Request::Host(HostCall::Mmap(MmapArgs {
                addr: 0,
                len: 0x60_0000,
                prot: 0,
                flags: 0x4022,
                fd: -1,
                offset: 0,
            })),
            Request::Host(HostCall::Munmap {
                addr: 0x7f00_0010_0000,
                len: 0x10_0000
            }),
            Request::Host(HostCall::Munmap {
                addr: 0x7f00_0060_0000,
                len: 0x10_0000
            }),
            Request::Host(HostCall::Mmap(MmapArgs {
                addr: 0x7f00_0020_0000,
                len: 0x40_0000,
                prot: 3,
                flags: 0x11,
                fd: 5,
                offset: 0,
            })),
            Request::Vm(VmCall::AllocateGpa {
                size: 0x40_0000,
                align: 0x40_0000
            }),
            Request::Vm(VmCall::RegisterMemoryRegion {
                gpa: 0x80_0000_0000,
                host_addr: 0x7f00_0020_0000,
                size: 0x40_0000,
            }),
        ]
    );
    let window = DaxWindow {
        memfd: 5,
        host_addr: 0x7f00_0020_0000,
        gpa: 0x80_0000_0000,
        size: 0x40_0000,
        kvm_slot: 6,
    };
    assert_eq!(device.dax_window, Some(window));
    assert_eq!(
        device.shmem_regions(),
        &[ShmemRegion {
            id: 0,
            len: 0x40_0000,
            gpa: 0x80_0000_0000
        }]
    );
    assert_eq!(
        window.release(),
        HostCall::Munmap {
            addr: 0x7f00_0020_0000,
            len: 0x40_0000
        }
    );
    // A window that exists is not created again.
    assert_eq!(device.create_dax_window(None).pending(), None);
}

#[test]
fn persisted_address_is_not_allocated() {
    let setup = device(Some(4)).create_dax_window(Some(0x90_0000_0000));
    let (device, result, asked) = answer(setup, 0x7f00_0000_0000, None);
    result.unwrap();
    assert_eq!(device.dax_window_gpa(), Some(0x90_0000_0000));
    assert!(!asked
        .iter()
        .any(|request| matches!(request, Request::Vm(VmCall::AllocateGpa { .. }))));
    // The reservation was aligned: only its tail is given back.
    assert_eq!(
        asked
            .iter()
            .filter(|request| matches!(request, Request::Host(HostCall::Munmap { .. })))
            .count(),
        1
    );
}

#[test]
fn no_window_without_a_size() {
    let setup = device(None).create_dax_window(None);
    assert_eq!(setup.pending(), None);
    let (device, result) = setup.finish();
    result.unwrap();
    assert_eq!(device.dax_window, None);
}

#[test]
fn window_creation_fails_where_a_call_fails() {
    for (place, expected) in [
        (0, VhostUserFsError::Memfd(fault("no"))),
        (1, VhostUserFsError::MemfdSetLen(fault("no"))),
        (2, VhostUserFsError::Mmap(fault("no"))),
        (5, VhostUserFsError::Mmap(fault("no"))),
        (6, VhostUserFsError::ResourceAllocator(fault("no"))),
        (7, VhostUserFsError::Vm(fault("no"))),
    ] {
        let setup = device(Some(4)).create_dax_window(None);
        let (device, result, asked) = answer(setup, 0x7f00_0010_0000, Some(place));
        assert_eq!(result, Err(expected));
        assert_eq!(device.dax_window, None);
        assert_eq!(device.shmem_region, None);
        // A reservation that cannot be used is given back.
        assert_eq!(asked.len(), if place == 5 { 7 } else { place + 1 });
    }
    // Whether an unmapping works does not matter.
    let setup = device(Some(4)).create_dax_window(None);
    let (_, result, _) = answer(setup, 0x7f00_0010_0000, Some(3));
    result.unwrap();
}

#[test]
fn window_of_an_impossible_size_has_no_file() {
    // The file cannot be made so long: that is the error, not the sum.
    for size_mib in [0xfff_ffff_fffe, 0xfff_ffff_ffff] {
        let setup = device(Some(size_mib)).create_dax_window(None);
        let (device, result, asked) = answer(setup, 0, Some(1));
        assert_eq!(result, Err(VhostUserFsError::MemfdSetLen(fault("no"))));
        assert_eq!(
            asked[1],
            Request::Host(HostCall::SetMemfdLen {
                len: size_mib << 20
            })
        );
        assert_eq!(device.dax_window_gpa(), None);
        assert!(device.shmem_regions().is_empty());
    }
}

#[test]
fn unusable_reservation_is_given_back() {
    let mapping = WindowMapping::map_window_host(0x20_0000, 3)
        .complete(Ok(0x20_0000))
        .complete(Err(fault("ignored")))
        .complete(Err(fault("no")));
    assert_eq!(
        mapping.pending(),
        Some(HostCall::Munmap {
            addr: 0x20_0000,
            len: 0x20_0000
        })
    );
    let mapping = mapping.complete(Ok(0));
    assert_eq!(
        mapping.phase,
        MappingPhase::Failed(VhostUserFsError::Mmap(fault("no")))
    );
    assert_eq!(mapping.pending(), None);
}
