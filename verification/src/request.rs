//! What an operation asks of the host.

use vstd::prelude::*;

use crate::queue::Queue;

verus! {

/// The direction of a device-state transfer.
#[derive(Clone, Copy, Debug, PartialEq, Eq, Structural)]
pub enum TransferDirection {
    /// The backend writes its state.
    Save,
    /// The backend reads its state.
    Load,
}

/// The phase of migration in which a device-state transfer takes place.
#[derive(Clone, Copy, Debug, PartialEq, Eq, Structural)]
pub enum TransferPhase {
    /// The device is stopped.
    Stopped,
}

/// A request of the vhost-user protocol. `index` is the index of a queue.
#[derive(Clone, Copy, Debug, PartialEq, Eq, Structural)]
pub enum VhostCall {
    SetOwner,
    /// The reply is the feature bits of the backend.
    GetFeatures,
    /// The reply is the protocol feature bits of the backend.
    GetProtocolFeatures,
    SetProtocolFeatures { features: u64 },
    /// Sets the flags of all later request headers. Cannot fail.
    SetHdrFlags { flags: u32 },
    SetFeatures { features: u64 },
    SetMemTable { mem: u64 },
    SetVringNum { index: usize, num: u16 },
    SetVringAddr { index: usize, queue: Queue },
    /// The base is the index that the driver left in the available ring of the
    /// queue, which the host reads from guest memory.
    SetVringBase { index: usize, queue: Queue },
    SetVringCall { index: usize, interrupt: u64 },
    SetVringKick { index: usize, evt: u64 },
    SetVringEnable { index: usize, enable: bool },
    /// Hands the memfd of the transfer to the backend.
    SetDeviceStateFd { direction: TransferDirection, phase: TransferPhase },
    CheckDeviceState,
    /// Hands the sending end of the backend request channel to the backend.
    SetBackendRequestFd,
}

/// The names of the memfds that the device creates.
#[derive(Clone, Copy, Debug, PartialEq, Eq, Structural)]
pub enum MemfdName {
    /// Backs the DAX window.
    Dax,
    /// Carries the backend state.
    State,
}

impl MemfdName {
    /// The name given to the kernel.
    pub open spec fn text(self) -> Seq<char> {
        match self {
            MemfdName::Dax => "vhost_user_fs_dax"@,
            MemfdName::State => "vhost_user_fs_state"@,
        }
    }

    pub fn name(&self) -> (name: &'static str)
        ensures
            name@ == self.text(),
    {
        match self {
            MemfdName::Dax => "vhost_user_fs_dax",
            MemfdName::State => "vhost_user_fs_state",
        }
    }
}

/// The arguments of an `mmap` call. An address of 0 leaves the place to the
/// kernel, a descriptor of -1 stands for no file.
#[derive(Clone, Copy, Debug, PartialEq, Eq, Structural)]
pub struct MmapArgs {
    pub addr: u64,
    pub len: u64,
    pub prot: i32,
    pub flags: i32,
    pub fd: i32,
    pub offset: i64,
}

/// A call that only needs the host itself.
#[derive(Clone, Copy, Debug, PartialEq, Eq, Structural)]
pub enum HostCall {
    /// The reply is a handle of the eventfd.
    CreateEventFd { flags: i32 },
    /// The reply is the descriptor of the memfd.
    CreateMemfd { name: MemfdName },
    SetMemfdLen { len: u64 },
    /// Duplicates the memfd, so that one end can be given away.
    DupMemfd,
    /// Sets the file offset of the memfd to 0.
    RewindMemfd,
    /// Reads the memfd to its end.
    ReadMemfd,
    /// The reply is the address of the mapping.
    Mmap(MmapArgs),
    /// The outcome is ignored.
    Munmap { addr: u64, len: u64 },
    /// Opens the backend request channel, served with this window.
    NewReqHandler { window_host_addr: u64, window_size: u64 },
    /// Whether requests of the backend are acknowledged. Cannot fail.
    SetReplyAckFlag { enable: bool },
    /// Starts the thread that serves the backend request channel. The reply
    /// is a handle of the thread. Cannot fail.
    SpawnReqThread,
}

/// A call that needs the virtual machine.
#[derive(Clone, Copy, Debug, PartialEq, Eq, Structural)]
pub enum VmCall {
    /// Checks the queue against the guest memory and finds its rings there.
    InitializeQueue { index: usize, mem: u64 },
    /// Allocates guest address space behind the 64-bit MMIO space, the first
    /// range that matches. The reply is its start.
    AllocateGpa { size: u64, align: u64 },
    /// Maps host memory into the guest. The reply is the slot.
    RegisterMemoryRegion { gpa: u64, host_addr: u64, size: u64 },
}

/// One call that the host has to make.
#[derive(Debug, PartialEq, Eq)]
pub enum Request {
    /// Connects to the socket of the backend, for a device with so many queues.
    Connect { socket: String, num_queues: u64 },
    Vhost(VhostCall),
    Host(HostCall),
    Vm(VmCall),
    /// Writes the bytes to the memfd, all of them.
    WriteMemfd { bytes: Vec<u8> },
}

/// A request as a mathematical value.
pub enum Call {
    Connect { socket: Seq<char>, num_queues: u64 },
    Vhost(VhostCall),
    Host(HostCall),
    Vm(VmCall),
    WriteMemfd { bytes: Seq<u8> },
}

impl View for Request {
    type V = Call;

    open spec fn view(&self) -> Call {
        match *self {
            Request::Connect { socket, num_queues } => Call::Connect {
                socket: socket@,
                num_queues,
            },
            Request::Vhost(call) => Call::Vhost(call),
            Request::Host(call) => Call::Host(call),
            Request::Vm(call) => Call::Vm(call),
            Request::WriteMemfd { bytes } => Call::WriteMemfd { bytes: bytes@ },
        }
    }
}

impl Call {
    /// Calls whose outcome nobody looks at: they have none, or it is ignored.
    pub open spec fn cannot_fail(self) -> bool {
        match self {
            Call::Vhost(VhostCall::SetHdrFlags { .. }) => true,
            Call::Host(HostCall::SetReplyAckFlag { .. }) => true,
            Call::Host(HostCall::SpawnReqThread) => true,
            Call::Host(HostCall::Munmap { .. }) => true,
            _ => false,
        }
    }
}

impl Request {
    pub fn cannot_fail(&self) -> (r: bool)
        ensures
            r == self@.cannot_fail(),
    {
        match self {
            Request::Vhost(VhostCall::SetHdrFlags { .. }) => true,
            Request::Host(HostCall::SetReplyAckFlag { .. }) => true,
            Request::Host(HostCall::SpawnReqThread) => true,
            Request::Host(HostCall::Munmap { .. }) => true,
            _ => false,
        }
    }
}

/// The requests of a plan as mathematical values.
pub open spec fn calls(requests: Seq<Request>) -> Seq<Call> {
    Seq::new(requests.len(), |i: int| requests[i]@)
}

pub proof fn lemma_calls_push(requests: Seq<Request>, last: Request)
    ensures
        calls(requests.push(last)) == calls(requests).push(last@),
{
    assert(calls(requests.push(last)) =~= calls(requests).push(last@));
}

/// A request and the call that it stands for name the same operation with the
/// same arguments.
pub proof fn law_request_is_its_call(request: Request)
    ensures
        match request {
            Request::Connect { socket, num_queues } => {
                &&& request@ is Connect
                &&& request@->socket == socket@
                &&& request@->num_queues == num_queues
            },
            Request::Vhost(call) => request@ is Vhost && request@->Vhost_0 == call,
            Request::Host(call) => request@ is Host && request@->Host_0 == call,
            Request::Vm(call) => request@ is Vm && request@->Vm_0 == call,
            Request::WriteMemfd { bytes } => request@ is WriteMemfd && request@->bytes == bytes@,
        },
{
}

/// The outcome of a call is looked at unless the call sets a flag of the
/// connection or the channel, starts the thread or gives memory back. No call
/// that needs the virtual machine, the connection itself or the blob is among
/// these.
pub proof fn law_calls_that_cannot_fail(call: Call)
    ensures
        call.cannot_fail() <==> {
            ||| call is Vhost && call->Vhost_0 is SetHdrFlags
            ||| call is Host && (call->Host_0 is SetReplyAckFlag || call->Host_0 is SpawnReqThread
                || call->Host_0 is Munmap)
        },
{
}

/// The calls of a plan are its requests, each at its place.
pub proof fn law_calls_are_the_requests(requests: Seq<Request>)
    ensures
        calls(requests).len() == requests.len(),
        forall|i: int|
            0 <= i < requests.len() ==> #[trigger] calls(requests)[i] == requests[i]@,
{
}

/// The two memfds have different names, and both names tell whose they are.
pub proof fn law_memfd_names(name: MemfdName)
    ensures
        ({
            let prefix = "vhost_user_fs_"@;
            &&& name.text().len() > prefix.len()
            &&& name.text().take(prefix.len() as int) == prefix
        }),
        MemfdName::Dax.text() != MemfdName::State.text(),
        name.text().skip(14) == match name {
            MemfdName::Dax => "dax"@,
            MemfdName::State => "state"@,
        },
{
    reveal_strlit("vhost_user_fs_");
    reveal_strlit("vhost_user_fs_dax");
    reveal_strlit("vhost_user_fs_state");
    reveal_strlit("dax");
    reveal_strlit("state");
    assert(MemfdName::Dax.text().len() == 17);
    assert(MemfdName::State.text().len() == 19);
}

} // verus!
