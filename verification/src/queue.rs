//! The virtqueues of the device, as far as the frontend looks at them.

use vstd::prelude::*;

verus! {

/// Number of hiprio queues of the vhost-user fs device. The hiprio queue is
/// always the queue at index 0, all request queues follow it.
pub const NUM_HIPRIO_QUEUES: u64 = 1;

/// Queue size for the vhost-user fs device.
pub const QUEUE_SIZE: u16 = 256;

/// The kinds of virtio devices that this crate deals with.
#[derive(Clone, Copy, Debug, PartialEq, Eq, Structural)]
pub enum VirtioDeviceType {
    Fs,
}

/// A virtqueue: what the guest driver configured and how far it has come.
#[derive(Clone, Copy, Debug, PartialEq, Eq, Structural)]
pub struct Queue {
    /// The largest size the device offers.
    pub max_size: u16,
    /// The size the driver chose.
    pub size: u16,
    /// Whether the driver is done with the configuration.
    pub ready: bool,
    /// Guest physical address of the descriptor table.
    pub desc_table_address: u64,
    /// Guest physical address of the available ring.
    pub avail_ring_address: u64,
    /// Guest physical address of the used ring.
    pub used_ring_address: u64,
    /// Index of the next entry of the available ring.
    pub next_avail: u16,
    /// Index of the next entry of the used ring.
    pub next_used: u16,
}

impl Queue {
    /// A queue that the driver has not configured yet.
    pub open spec fn unconfigured(max_size: u16) -> Queue {
        Queue {
            max_size,
            size: max_size,
            ready: false,
            desc_table_address: 0,
            avail_ring_address: 0,
            used_ring_address: 0,
            next_avail: 0,
            next_used: 0,
        }
    }

    pub fn new(max_size: u16) -> (queue: Queue)
        ensures
            queue == Queue::unconfigured(max_size),
    {
        Queue {
            max_size,
            size: max_size,
            ready: false,
            desc_table_address: 0,
            avail_ring_address: 0,
            used_ring_address: 0,
            next_avail: 0,
            next_used: 0,
        }
    }
}

/// All queues of a device: the hiprio queue and the request queues.
pub open spec fn queue_count(num_request_queues: u16) -> nat {
    (NUM_HIPRIO_QUEUES + num_request_queues) as nat
}

/// A queue that the driver has not configured is as large as it may be, not
/// ready, has its rings nowhere and has moved nothing.
pub proof fn law_unconfigured_queue(max_size: u16)
    ensures
        ({
            let queue = Queue::unconfigured(max_size);
            &&& queue.max_size == max_size
            &&& queue.size == max_size
            &&& !queue.ready
            &&& queue.desc_table_address == 0
            &&& queue.avail_ring_address == 0
            &&& queue.used_ring_address == 0
            &&& queue.next_avail == 0
            &&& queue.next_used == 0
        }),
{
}

/// There is one queue more than there are request queues.
pub proof fn law_one_hiprio_queue(num_request_queues: u16)
    ensures
        queue_count(num_request_queues) == num_request_queues + 1,
{
}

} // verus!
