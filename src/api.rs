//! The host-facing interface of the node library: the RPC and SYS channels
//! between the user interface and the library, and whether the library
//! finished initializing. All of it lives in one context object.

use crate::queue::{offered, BoundedQueue, TryRecvError};
use vstd::prelude::*;

verus! {

/// The channels between the user interface and the library.
pub struct Libqaul {
    initialized: bool,
    rpc_to_libqaul: BoundedQueue<Vec<u8>>,
    rpc_from_libqaul: BoundedQueue<Vec<u8>>,
    rpc_sent: i32,
    sys_to_libqaul: BoundedQueue<Vec<u8>>,
    sys_from_libqaul: BoundedQueue<Vec<u8>>,
}

/// Result of taking the oldest item of `before`, leaving `after`.
pub open spec fn took_oldest(
    before: Seq<Vec<u8>>,
    after: Seq<Vec<u8>>,
    r: Result<Vec<u8>, TryRecvError>,
) -> bool {
    if before.len() == 0 {
        r == Err::<Vec<u8>, TryRecvError>(TryRecvError::Empty) && after == before
    } else {
        r == Ok::<Vec<u8>, TryRecvError>(before[0]) && after == before.drop_first()
    }
}

impl Libqaul {
    pub closed spec fn is_initialized(&self) -> bool {
        self.initialized
    }

    /// RPC messages waiting for the library.
    pub closed spec fn rpc_to_libqaul(&self) -> Seq<Vec<u8>> {
        self.rpc_to_libqaul@
    }

    /// RPC messages waiting for the user interface.
    pub closed spec fn rpc_from_libqaul(&self) -> Seq<Vec<u8>> {
        self.rpc_from_libqaul@
    }

    /// RPC messages the user interface handed over so far, saturating.
    pub closed spec fn rpc_sent(&self) -> i32 {
        self.rpc_sent
    }

    /// SYS messages waiting for the library.
    pub closed spec fn sys_to_libqaul(&self) -> Seq<Vec<u8>> {
        self.sys_to_libqaul@
    }

    /// SYS messages waiting for the user interface.
    pub closed spec fn sys_from_libqaul(&self) -> Seq<Vec<u8>> {
        self.sys_from_libqaul@
    }

    /// Capacity of each of the four queues.
    pub closed spec fn capacity(&self) -> nat {
        self.rpc_to_libqaul.capacity_spec()
    }

    pub closed spec fn wf(&self) -> bool {
        &&& self.rpc_from_libqaul.capacity_spec() == self.capacity()
        &&& self.sys_to_libqaul.capacity_spec() == self.capacity()
        &&& self.sys_from_libqaul.capacity_spec() == self.capacity()
        &&& self.rpc_sent >= 0
    }

    /// Empty channels of `capacity` messages each, not yet initialized.
    pub fn new(capacity: usize) -> (r: Self)
        ensures
            r.wf(),
            !r.is_initialized(),
            r.capacity() == capacity,
            r.rpc_to_libqaul().len() == 0,
            r.rpc_from_libqaul().len() == 0,
            r.sys_to_libqaul().len() == 0,
            r.sys_from_libqaul().len() == 0,
            r.rpc_sent() == 0,
    {
        Libqaul {
            initialized: false,
            rpc_to_libqaul: BoundedQueue::new(capacity),
            rpc_from_libqaul: BoundedQueue::new(capacity),
            rpc_sent: 0,
            sys_to_libqaul: BoundedQueue::new(capacity),
            sys_from_libqaul: BoundedQueue::new(capacity),
        }
    }

    /// Library side: initialization is done.
    pub fn set_initialized(&mut self)
        requires
            old(self).wf(),
        ensures
            final(self).wf(),
            final(self).is_initialized(),
            final(self).capacity() == old(self).capacity(),
            final(self).rpc_to_libqaul() == old(self).rpc_to_libqaul(),
            final(self).rpc_from_libqaul() == old(self).rpc_from_libqaul(),
            final(self).sys_to_libqaul() == old(self).sys_to_libqaul(),
            final(self).sys_from_libqaul() == old(self).sys_from_libqaul(),
            final(self).rpc_sent() == old(self).rpc_sent(),
    {
        self.initialized = true;
    }

    /// Library side: takes the oldest RPC message of the user interface.
    pub fn next_rpc(&mut self) -> (r: Result<Vec<u8>, TryRecvError>)
        requires
            old(self).wf(),
        ensures
            final(self).wf(),
            took_oldest(old(self).rpc_to_libqaul(), final(self).rpc_to_libqaul(), r),
            final(self).is_initialized() == old(self).is_initialized(),
            final(self).capacity() == old(self).capacity(),
            final(self).rpc_from_libqaul() == old(self).rpc_from_libqaul(),
            final(self).sys_to_libqaul() == old(self).sys_to_libqaul(),
            final(self).sys_from_libqaul() == old(self).sys_from_libqaul(),
            final(self).rpc_sent() == old(self).rpc_sent(),
    {
        self.rpc_to_libqaul.try_recv()
    }

    /// Library side: queues an RPC message for the user interface; a full
    /// queue drops it.
    pub fn reply_rpc(&mut self, msg: Vec<u8>) -> (kept: bool)
        requires
            old(self).wf(),
        ensures
            final(self).wf(),
            kept == (old(self).rpc_from_libqaul().len() < old(self).capacity()),
            final(self).rpc_from_libqaul() == offered(
                old(self).rpc_from_libqaul(),
                old(self).capacity(),
                msg,
            ),
            final(self).is_initialized() == old(self).is_initialized(),
            final(self).capacity() == old(self).capacity(),
            final(self).rpc_to_libqaul() == old(self).rpc_to_libqaul(),
            final(self).sys_to_libqaul() == old(self).sys_to_libqaul(),
            final(self).sys_from_libqaul() == old(self).sys_from_libqaul(),
            final(self).rpc_sent() == old(self).rpc_sent(),
    {
        self.rpc_from_libqaul.try_send(msg)
    }

    /// Library side: takes the oldest SYS message of the user interface.
    pub fn next_sys(&mut self) -> (r: Result<Vec<u8>, TryRecvError>)
        requires
            old(self).wf(),
        ensures
            final(self).wf(),
            took_oldest(old(self).sys_to_libqaul(), final(self).sys_to_libqaul(), r),
            final(self).is_initialized() == old(self).is_initialized(),
            final(self).capacity() == old(self).capacity(),
            final(self).rpc_to_libqaul() == old(self).rpc_to_libqaul(),
            final(self).rpc_from_libqaul() == old(self).rpc_from_libqaul(),
            final(self).sys_from_libqaul() == old(self).sys_from_libqaul(),
            final(self).rpc_sent() == old(self).rpc_sent(),
    {
        self.sys_to_libqaul.try_recv()
    }

    /// Library side: queues a SYS message for the user interface; a full
    /// queue drops it.
    pub fn reply_sys(&mut self, msg: Vec<u8>) -> (kept: bool)
        requires
            old(self).wf(),
        ensures
            final(self).wf(),
            kept == (old(self).sys_from_libqaul().len() < old(self).capacity()),
            final(self).sys_from_libqaul() == offered(
                old(self).sys_from_libqaul(),
                old(self).capacity(),
                msg,
            ),
            final(self).is_initialized() == old(self).is_initialized(),
            final(self).capacity() == old(self).capacity(),
            final(self).rpc_to_libqaul() == old(self).rpc_to_libqaul(),
            final(self).rpc_from_libqaul() == old(self).rpc_from_libqaul(),
            final(self).sys_to_libqaul() == old(self).sys_to_libqaul(),
            final(self).rpc_sent() == old(self).rpc_sent(),
    {
        self.sys_from_libqaul.try_send(msg)
    }
}

/// Whether the library finished initializing. Messages sent before it did
/// are not safe to process.
pub fn initialization_finished(api: &Libqaul) -> (r: bool)
    ensures
        r == api.is_initialized(),
{
    api.initialized
}

/// Sends an RPC message to the library. A full queue drops it; every kept
/// message is counted, up to `i32::MAX`.
pub fn send_rpc(api: &mut Libqaul, binary_message: Vec<u8>) -> (kept: bool)
    requires
        old(api).wf(),
    ensures
        final(api).wf(),
        kept == (old(api).rpc_to_libqaul().len() < old(api).capacity()),
        final(api).rpc_to_libqaul() == offered(
            old(api).rpc_to_libqaul(),
            old(api).capacity(),
            binary_message,
        ),
        final(api).rpc_sent() == if kept && old(api).rpc_sent() < i32::MAX {
            old(api).rpc_sent() + 1
        } else {
            old(api).rpc_sent() as int
        },
        final(api).is_initialized() == old(api).is_initialized(),
        final(api).capacity() == old(api).capacity(),
        final(api).rpc_from_libqaul() == old(api).rpc_from_libqaul(),
        final(api).sys_to_libqaul() == old(api).sys_to_libqaul(),
        final(api).sys_from_libqaul() == old(api).sys_from_libqaul(),
{
    let kept = api.rpc_to_libqaul.try_send(binary_message);
    if kept && api.rpc_sent < i32::MAX {
        api.rpc_sent = api.rpc_sent + 1;
    }
    kept
}

/// Takes the oldest RPC message of the library.
pub fn receive_rpc(api: &mut Libqaul) -> (r: Result<Vec<u8>, TryRecvError>)
    requires
        old(api).wf(),
    ensures
        final(api).wf(),
        took_oldest(old(api).rpc_from_libqaul(), final(api).rpc_from_libqaul(), r),
        final(api).is_initialized() == old(api).is_initialized(),
        final(api).capacity() == old(api).capacity(),
        final(api).rpc_to_libqaul() == old(api).rpc_to_libqaul(),
        final(api).sys_to_libqaul() == old(api).sys_to_libqaul(),
        final(api).sys_from_libqaul() == old(api).sys_from_libqaul(),
        final(api).rpc_sent() == old(api).rpc_sent(),
{
    api.rpc_from_libqaul.try_recv()
}

/// Number of RPC messages of the library waiting to be received.
pub fn receive_rpc_queued(api: &Libqaul) -> (r: usize)
    ensures
        r == api.rpc_from_libqaul().len(),
{
    api.rpc_from_libqaul.len()
}

/// Number of RPC messages sent to the library, saturating at `i32::MAX`.
pub fn send_rpc_count(api: &Libqaul) -> (r: i32)
    ensures
        r == api.rpc_sent(),
{
    api.rpc_sent
}

/// Sends a SYS message to the library. A full queue drops it.
pub fn send_sys(api: &mut Libqaul, binary_message: Vec<u8>) -> (kept: bool)
    requires
        old(api).wf(),
    ensures
        final(api).wf(),
        kept == (old(api).sys_to_libqaul().len() < old(api).capacity()),
        final(api).sys_to_libqaul() == offered(
            old(api).sys_to_libqaul(),
            old(api).capacity(),
            binary_message,
        ),
        final(api).is_initialized() == old(api).is_initialized(),
        final(api).capacity() == old(api).capacity(),
        final(api).rpc_to_libqaul() == old(api).rpc_to_libqaul(),
        final(api).rpc_from_libqaul() == old(api).rpc_from_libqaul(),
        final(api).sys_from_libqaul() == old(api).sys_from_libqaul(),
        final(api).rpc_sent() == old(api).rpc_sent(),
{
    api.sys_to_libqaul.try_send(binary_message)
}

/// Takes the oldest SYS message of the library.
pub fn receive_sys(api: &mut Libqaul) -> (r: Result<Vec<u8>, TryRecvError>)
    requires
        old(api).wf(),
    ensures
        final(api).wf(),
        took_oldest(old(api).sys_from_libqaul(), final(api).sys_from_libqaul(), r),
        final(api).is_initialized() == old(api).is_initialized(),
        final(api).capacity() == old(api).capacity(),
        final(api).rpc_to_libqaul() == old(api).rpc_to_libqaul(),
        final(api).rpc_from_libqaul() == old(api).rpc_from_libqaul(),
        final(api).sys_to_libqaul() == old(api).sys_to_libqaul(),
        final(api).rpc_sent() == old(api).rpc_sent(),
{
    api.sys_from_libqaul.try_recv()
}

} // verus!
