//! The constants and the classifications that come from outside the crate.
//!
//! Every function here is believed, not proved: its contract says what the
//! outside item is, and its body is that item.

use vstd::prelude::*;

use vhost::vhost_user::message::{
    VhostUserHeaderFlag, VhostUserMMapFlags, VhostUserProtocolFeatures, VhostUserVirtioFeatures,
};

verus! {

/// The virtio feature bit by which a vhost-user backend says that it
/// negotiates protocol features.
pub const PROTOCOL_FEATURES: u64 = 0x4000_0000;

/// Protocol feature: requests can ask for an acknowledgement.
pub const REPLY_ACK: u64 = 0x8;

/// Protocol feature: the backend may send requests to the frontend.
pub const BACKEND_REQ: u64 = 0x20;

/// Protocol feature: the backend can transfer its internal state.
pub const DEVICE_STATE: u64 = 0x8_0000;

/// Protocol feature: the backend may map files into shared memory regions.
pub const SHMEM: u64 = 0x40_0000;

/// Header flag: the sender waits for a reply.
pub const NEED_REPLY: u32 = 0x8;

/// Mapping flag: the mapping is writable.
pub const WRITABLE: u64 = 0x1;

/// Memory protection: no access.
pub const PROT_NONE: i32 = 0;

/// Memory protection: readable.
pub const PROT_READ: i32 = 1;

/// Memory protection: writable.
pub const PROT_WRITE: i32 = 2;

/// Mapping kind: updates are shared.
pub const MAP_SHARED: i32 = 0x1;

/// Mapping kind: updates are private.
pub const MAP_PRIVATE: i32 = 0x2;

/// Mapping kind: exactly at the given address.
pub const MAP_FIXED: i32 = 0x10;

/// Mapping kind: not backed by a file.
pub const MAP_ANONYMOUS: i32 = 0x20;

/// Mapping kind: no swap space is reserved.
pub const MAP_NORESERVE: i32 = 0x4000;

/// Poll event: there is data to read.
pub const POLLIN: i16 = 0x1;

/// Eventfd flag: reads and writes do not block.
pub const EFD_NONBLOCK: i32 = 0x800;

/// `VhostUserVirtioFeatures::PROTOCOL_FEATURES` of the `vhost` crate is bit 30.
#[verifier::external_body]
pub(crate) fn protocol_features() -> (bits: u64)
    ensures
        bits == PROTOCOL_FEATURES,
{
    VhostUserVirtioFeatures::PROTOCOL_FEATURES.bits()
}

/// `VhostUserProtocolFeatures::REPLY_ACK` of the `vhost` crate is bit 3.
#[verifier::external_body]
pub(crate) fn reply_ack() -> (bits: u64)
    ensures
        bits == REPLY_ACK,
{
    VhostUserProtocolFeatures::REPLY_ACK.bits()
}

/// `VhostUserProtocolFeatures::BACKEND_REQ` of the `vhost` crate is bit 5.
#[verifier::external_body]
pub(crate) fn backend_req() -> (bits: u64)
    ensures
        bits == BACKEND_REQ,
{
    VhostUserProtocolFeatures::BACKEND_REQ.bits()
}

/// `VhostUserProtocolFeatures::DEVICE_STATE` of the `vhost` crate is bit 19.
#[verifier::external_body]
pub(crate) fn device_state() -> (bits: u64)
    ensures
        bits == DEVICE_STATE,
{
    VhostUserProtocolFeatures::DEVICE_STATE.bits()
}

/// `VhostUserProtocolFeatures::SHMEM` of the `vhost` crate is bit 22.
#[verifier::external_body]
pub(crate) fn shmem() -> (bits: u64)
    ensures
        bits == SHMEM,
{
    VhostUserProtocolFeatures::SHMEM.bits()
}

/// `VhostUserHeaderFlag::NEED_REPLY` of the `vhost` crate is bit 3.
#[verifier::external_body]
pub(crate) fn need_reply() -> (bits: u32)
    ensures
        bits == NEED_REPLY,
{
    VhostUserHeaderFlag::NEED_REPLY.bits()
}

/// `VhostUserMMapFlags::WRITABLE` of the `vhost` crate is bit 0.
#[verifier::external_body]
pub(crate) fn writable() -> (bits: u64)
    ensures
        bits == WRITABLE,
{
    VhostUserMMapFlags::WRITABLE.bits()
}

/// `libc::PROT_NONE` is 0 on Linux.
#[verifier::external_body]
pub(crate) fn prot_none() -> (prot: i32)
    ensures
        prot == PROT_NONE,
{
    libc::PROT_NONE
}

/// `libc::PROT_READ` is 1 on Linux.
#[verifier::external_body]
pub(crate) fn prot_read() -> (prot: i32)
    ensures
        prot == PROT_READ,
{
    libc::PROT_READ
}

/// `libc::PROT_WRITE` is 2 on Linux.
#[verifier::external_body]
pub(crate) fn prot_write() -> (prot: i32)
    ensures
        prot == PROT_WRITE,
{
    libc::PROT_WRITE
}

/// `libc::MAP_SHARED` is 1 on Linux.
#[verifier::external_body]
pub(crate) fn map_shared() -> (flag: i32)
    ensures
        flag == MAP_SHARED,
{
    libc::MAP_SHARED
}

/// `libc::MAP_PRIVATE` is 2 on Linux.
#[verifier::external_body]
pub(crate) fn map_private() -> (flag: i32)
    ensures
        flag == MAP_PRIVATE,
{
    libc::MAP_PRIVATE
}

/// `libc::MAP_FIXED` is 0x10 on Linux.
#[verifier::external_body]
pub(crate) fn map_fixed() -> (flag: i32)
    ensures
        flag == MAP_FIXED,
{
    libc::MAP_FIXED
}

/// `libc::MAP_ANONYMOUS` is 0x20 on Linux, on x86-64 and AArch64.
#[verifier::external_body]
pub(crate) fn map_anonymous() -> (flag: i32)
    ensures
        flag == MAP_ANONYMOUS,
{
    libc::MAP_ANONYMOUS
}

/// `libc::MAP_NORESERVE` is 0x4000 on Linux, on x86-64 and AArch64.
#[verifier::external_body]
pub(crate) fn map_noreserve() -> (flag: i32)
    ensures
        flag == MAP_NORESERVE,
{
    libc::MAP_NORESERVE
}

/// `libc::POLLIN` is 1 on Linux.
#[verifier::external_body]
pub(crate) fn pollin() -> (event: i16)
    ensures
        event == POLLIN,
{
    libc::POLLIN
}

/// `libc::EFD_NONBLOCK` is 0x800 on Linux, on x86-64 and AArch64.
#[verifier::external_body]
pub(crate) fn efd_nonblock() -> (flag: i32)
    ensures
        flag == EFD_NONBLOCK,
{
    libc::EFD_NONBLOCK
}

/// Whether a character is alphabetic or numeric in the sense of Unicode.
pub uninterp spec fn alphanumeric(c: char) -> bool;

/// Whether a character is one of the letters and digits of ASCII.
pub open spec fn ascii_alphanumeric(c: char) -> bool {
    ||| 'a' <= c <= 'z'
    ||| 'A' <= c <= 'Z'
    ||| '0' <= c <= '9'
}

/// `char::is_alphanumeric` of the standard library, which goes by the
/// alphabetic and numeric characters of Unicode, a fixed table. In ASCII these
/// are the letters and the digits and no others.
#[verifier::external_body]
pub(crate) fn is_alphanumeric(c: char) -> (r: bool)
    ensures
        r == if c <= '\x7f' {
            ascii_alphanumeric(c)
        } else {
            alphanumeric(c)
        },
{
    c.is_alphanumeric()
}

/// Why the `vhost` crate could not serve a request of the backend.
#[verifier::external_type_specification]
#[verifier::external_body]
pub struct ExVhostUserError(vhost::vhost_user::Error);

/// Whether an error of the `vhost` crate calls for a new connection.
pub uninterp spec fn reconnects(error: vhost::vhost_user::Error) -> bool;

/// `vhost::vhost_user::Error::should_reconnect`, which looks at nothing but
/// the variant of the error: it holds of a partial message, a broken socket and
/// an internal error of either side.
#[verifier::external_body]
pub(crate) fn should_reconnect(error: &vhost::vhost_user::Error) -> (r: bool)
    ensures
        r == reconnects(*error),
{
    error.should_reconnect()
}

} // verus!
