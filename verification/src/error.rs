//! The errors of the device and of the operations on it.

use vstd::prelude::*;

verus! {

/// Why a call that the host made failed, in the host's words.
#[derive(Debug, PartialEq, Eq)]
pub struct Fault {
    pub reason: String,
    /// The error number of the operating system, if that is where the fault
    /// comes from.
    pub os_error: Option<i32>,
}

/// A request of the vhost-user protocol failed.
#[derive(Debug, PartialEq, Eq)]
pub enum VhostUserError {
    Connect(Fault),
    VhostUserSetOwner(Fault),
    VhostUserGetFeatures(Fault),
    VhostUserSetFeatures(Fault),
    VhostUserGetProtocolFeatures(Fault),
    VhostUserSetProtocolFeatures(Fault),
    VhostUserSetMemTable(Fault),
    VhostUserSetVringNum(Fault),
    VhostUserSetVringAddr(Fault),
    VhostUserSetVringBase(Fault),
    VhostUserSetVringCall(Fault),
    VhostUserSetVringKick(Fault),
    VhostUserSetVringEnable(Fault),
    VhostUserSetDeviceStateFd(Fault),
    VhostUserCheckDeviceState(Fault),
}

/// The virtio state of a snapshot cannot be used.
#[derive(Debug, PartialEq, Eq)]
pub enum PersistError {
    /// The state does not describe this device.
    InvalidInput,
    /// A queue of the state does not fit the guest memory.
    Queue(Fault),
}

/// A request of the backend cannot be granted.
#[derive(Debug, PartialEq, Eq)]
pub enum HandlerError {
    UnsupportedShmemId,
    NotPageAligned,
    Overflow,
    OutOfBounds,
    FdOffsetOverflow,
    /// The mapping itself failed.
    Os(Fault),
}

impl HandlerError {
    /// What the error says.
    pub open spec fn text(self) -> Seq<char> {
        match self {
            HandlerError::UnsupportedShmemId => "unsupported shmem id"@,
            HandlerError::NotPageAligned => "DAX window mapping must be page aligned"@,
            HandlerError::Overflow => "overflow"@,
            HandlerError::OutOfBounds => "DAX window mapping out of bounds"@,
            HandlerError::FdOffsetOverflow => "fd offset overflow"@,
            HandlerError::Os(fault) => fault.reason@,
        }
    }

    /// The error number of the operating system, if that is where the error
    /// comes from.
    pub open spec fn os_error(self) -> Option<i32> {
        match self {
            HandlerError::Os(fault) => fault.os_error,
            _ => None,
        }
    }

    /// The error number that the backend is answered with, if the operating
    /// system gave one.
    pub fn raw_os_error(&self) -> (number: Option<i32>)
        ensures
            number == self.os_error(),
    {
        match self {
            HandlerError::Os(fault) => fault.os_error,
            _ => None,
        }
    }

    pub fn message(&self) -> (text: String)
        ensures
            text@ == self.text(),
    {
        match self {
            HandlerError::UnsupportedShmemId => "unsupported shmem id".to_owned(),
            HandlerError::NotPageAligned => "DAX window mapping must be page aligned".to_owned(),
            HandlerError::Overflow => "overflow".to_owned(),
            HandlerError::OutOfBounds => "DAX window mapping out of bounds".to_owned(),
            HandlerError::FdOffsetOverflow => "fd offset overflow".to_owned(),
            HandlerError::Os(fault) => fault.reason.clone(),
        }
    }
}

/// The backend request channel cannot be served.
#[derive(Clone, Copy, Debug, PartialEq, Eq)]
pub enum BackendReqError {
    /// DAX window not created
    WindowNotCreated,
}

/// Vhost-user fs device error.
#[derive(Debug, PartialEq, Eq)]
pub enum VhostUserFsError {
    /// Cannot create config
    Config,
    /// The backend did not negotiate the DEVICE_STATE protocol feature, so
    /// its internal state cannot be transferred for snapshotting
    DeviceStateNotNegotiated,
    /// Error transferring the backend device state
    DeviceStateTransfer(Fault),
    /// Error creating a memfd
    Memfd(Fault),
    /// Error setting the length of the DAX window's memfd
    MemfdSetLen(Fault),
    /// Error mapping the DAX window into the host address space
    Mmap(Fault),
    /// Error allocating guest address space for the DAX window
    ResourceAllocator(Fault),
    /// Error registering the DAX window with the VM
    Vm(Fault),
    /// The DAX window cannot be put where the snapshot had it
    DaxWindowGpaMismatch,
    /// Invalid virtio state in snapshot
    VirtioState(PersistError),
    /// Vhost-user error
    VhostUser(VhostUserError),
    /// Vhost error
    Vhost(Fault),
    /// Error serving the backend request channel
    BackendReq(BackendReqError),
    /// Error opening the backend request channel
    BackendReqVhost(Fault),
    /// Error opening eventfd
    EventFd(Fault),
    /// Error creating irqfd
    Interrupt(Fault),
}

/// The device could not be activated.
#[derive(Debug, PartialEq, Eq)]
pub enum ActivateError {
    /// A queue does not fit the guest memory
    QueueMemoryError(Fault),
    /// The backend refused a request
    VhostUser(VhostUserError),
    /// The fs device failed
    VhostUserFs(VhostUserFsError),
}

/// Errors associated with the operations allowed on an fs device.
#[derive(Debug, PartialEq, Eq)]
pub enum FsConfigError {
    /// Unable to create the vhost-user fs device
    CreateFsDevice(VhostUserFsError),
}

/// The HTTP status of a refused API request.
#[derive(Clone, Copy, Debug, PartialEq, Eq, Structural)]
pub enum StatusCode {
    BadRequest,
}

/// An API request cannot be understood.
#[derive(Debug, PartialEq, Eq)]
pub enum RequestError {
    /// The ID cannot be empty.
    EmptyID,
    /// API Resource IDs can only contain alphanumeric characters and underscores.
    InvalidID,
    /// The body is not a configuration.
    SerdeJson(Fault),
    /// The request is refused with a status and an explanation.
    Generic(StatusCode, String),
}

/// Only a fault of the host has an error number, and it is the one that the
/// host gave.
pub proof fn law_error_numbers(error: HandlerError, number: i32)
    ensures
        error.os_error() == Some(number) <==> error is Os && error->Os_0.os_error == Some(number),
        !(error is Os) ==> error.os_error() is None,
{
}

} // verus!
