//! The control channel pair between the host and this module: two bounded
//! queues owned by one context object. Sending never blocks: a message that
//! finds its queue full is dropped.

use crate::protocol::{BleDeviceDiscovered, BleDirectReceived, BleMessage, BleStartResult};
use crate::queue::{offered, BoundedQueue, TryRecvError};
use crate::service::{
    already_running_result, is_failure_result, is_success_result, start_successful_result,
    ALREADY_RUNNING_MESSAGE,
};
use vstd::prelude::*;

verus! {

/// Capacity of each direction of the control channel.
pub const SYS_CHANNEL_CAPACITY: usize = 32;

/// Whether `after` is `before` with one message appended, where there was
/// room for it, and `before` unchanged otherwise.
pub open spec fn delivered_one(before: Seq<BleMessage>, after: Seq<BleMessage>, capacity: nat) -> bool {
    if before.len() < capacity {
        after.len() == before.len() + 1 && after.drop_last() == before
    } else {
        after == before
    }
}

/// Both directions of the control channel.
pub struct BleRpc {
    to_module: BoundedQueue<BleMessage>,
    to_ui: BoundedQueue<BleMessage>,
}

impl BleRpc {
    /// Requests waiting for this module, oldest first.
    pub closed spec fn to_module(&self) -> Seq<BleMessage> {
        self.to_module@
    }

    /// Messages waiting for the host, oldest first.
    pub closed spec fn to_ui(&self) -> Seq<BleMessage> {
        self.to_ui@
    }

    pub closed spec fn to_module_capacity(&self) -> nat {
        self.to_module.capacity_spec()
    }

    pub closed spec fn to_ui_capacity(&self) -> nat {
        self.to_ui.capacity_spec()
    }
}

/// Creates the channel pair, each direction holding up to
/// `SYS_CHANNEL_CAPACITY` messages.
pub fn init() -> (rpc: BleRpc)
    ensures
        rpc.to_module().len() == 0,
        rpc.to_ui().len() == 0,
        rpc.to_module_capacity() == SYS_CHANNEL_CAPACITY,
        rpc.to_ui_capacity() == SYS_CHANNEL_CAPACITY,
{
    BleRpc {
        to_module: BoundedQueue::new(SYS_CHANNEL_CAPACITY),
        to_ui: BoundedQueue::new(SYS_CHANNEL_CAPACITY),
    }
}

/// Host side: queues a request for this module. Returns whether it was
/// kept; a full queue drops it.
pub fn send_to_ble_module(rpc: &mut BleRpc, msg: BleMessage) -> (kept: bool)
    ensures
        kept == (old(rpc).to_module().len() < old(rpc).to_module_capacity()),
        final(rpc).to_module() == offered(old(rpc).to_module(), old(rpc).to_module_capacity(), msg),
        final(rpc).to_ui() == old(rpc).to_ui(),
        final(rpc).to_module_capacity() == old(rpc).to_module_capacity(),
        final(rpc).to_ui_capacity() == old(rpc).to_ui_capacity(),
{
    rpc.to_module.try_send(msg)
}

/// Module side: takes the oldest waiting request.
pub fn receive_request(rpc: &mut BleRpc) -> (r: Result<BleMessage, TryRecvError>)
    ensures
        old(rpc).to_module().len() == 0 ==> r == Err::<BleMessage, TryRecvError>(
            TryRecvError::Empty,
        ) && final(rpc).to_module() == old(rpc).to_module(),
        old(rpc).to_module().len() > 0 ==> r == Ok::<BleMessage, TryRecvError>(
            old(rpc).to_module()[0],
        ) && final(rpc).to_module() == old(rpc).to_module().drop_first(),
        final(rpc).to_ui() == old(rpc).to_ui(),
        final(rpc).to_module_capacity() == old(rpc).to_module_capacity(),
        final(rpc).to_ui_capacity() == old(rpc).to_ui_capacity(),
{
    rpc.to_module.try_recv()
}

/// Host side: takes the oldest message this module sent.
pub fn receive_from_ble_module(rpc: &mut BleRpc) -> (r: Result<BleMessage, TryRecvError>)
    ensures
        old(rpc).to_ui().len() == 0 ==> r == Err::<BleMessage, TryRecvError>(TryRecvError::Empty)
            && final(rpc).to_ui() == old(rpc).to_ui(),
        old(rpc).to_ui().len() > 0 ==> r == Ok::<BleMessage, TryRecvError>(old(rpc).to_ui()[0])
            && final(rpc).to_ui() == old(rpc).to_ui().drop_first(),
        final(rpc).to_module() == old(rpc).to_module(),
        final(rpc).to_module_capacity() == old(rpc).to_module_capacity(),
        final(rpc).to_ui_capacity() == old(rpc).to_ui_capacity(),
{
    rpc.to_ui.try_recv()
}

/// Number of messages waiting for the host.
pub fn queue_length_ble_to_ui(rpc: &BleRpc) -> (r: usize)
    ensures
        r == rpc.to_ui().len(),
{
    rpc.to_ui.len()
}

/// Sends `msg` to the host. Returns whether it was kept; a full queue
/// drops it.
pub fn send_ble_sys_msg(rpc: &mut BleRpc, msg: BleMessage) -> (kept: bool)
    ensures
        kept == (old(rpc).to_ui().len() < old(rpc).to_ui_capacity()),
        final(rpc).to_ui() == offered(old(rpc).to_ui(), old(rpc).to_ui_capacity(), msg),
        final(rpc).to_module() == old(rpc).to_module(),
        final(rpc).to_module_capacity() == old(rpc).to_module_capacity(),
        final(rpc).to_ui_capacity() == old(rpc).to_ui_capacity(),
{
    rpc.to_ui.try_send(msg)
}

/// Sends a start result to the host.
pub fn send_start_result(rpc: &mut BleRpc, result: BleStartResult) -> (kept: bool)
    ensures
        kept == (old(rpc).to_ui().len() < old(rpc).to_ui_capacity()),
        final(rpc).to_ui() == offered(
            old(rpc).to_ui(),
            old(rpc).to_ui_capacity(),
            BleMessage::StartResult(result),
        ),
        final(rpc).to_module() == old(rpc).to_module(),
        final(rpc).to_module_capacity() == old(rpc).to_module_capacity(),
        final(rpc).to_ui_capacity() == old(rpc).to_ui_capacity(),
{
    send_ble_sys_msg(rpc, BleMessage::StartResult(result))
}

/// Tells the host that a start was refused because the service already
/// runs.
pub fn send_result_already_running(rpc: &mut BleRpc) -> (kept: bool)
    ensures
        kept == (old(rpc).to_ui().len() < old(rpc).to_ui_capacity()),
        delivered_one(old(rpc).to_ui(), final(rpc).to_ui(), old(rpc).to_ui_capacity()),
        kept ==> (final(rpc).to_ui().last() matches BleMessage::StartResult(r)
            && is_failure_result(r, ALREADY_RUNNING_MESSAGE@)),
        final(rpc).to_module() == old(rpc).to_module(),
        final(rpc).to_module_capacity() == old(rpc).to_module_capacity(),
        final(rpc).to_ui_capacity() == old(rpc).to_ui_capacity(),
{
    let result = already_running_result();
    let ghost msg = BleMessage::StartResult(result);
    let ghost before = rpc.to_ui();
    assert(before.push(msg).drop_last() =~= before);
    send_start_result(rpc, result)
}

/// Tells the host that the service started.
pub fn send_start_successful(rpc: &mut BleRpc) -> (kept: bool)
    ensures
        kept == (old(rpc).to_ui().len() < old(rpc).to_ui_capacity()),
        delivered_one(old(rpc).to_ui(), final(rpc).to_ui(), old(rpc).to_ui_capacity()),
        kept ==> (final(rpc).to_ui().last() matches BleMessage::StartResult(r)
            && is_success_result(r)),
        final(rpc).to_module() == old(rpc).to_module(),
        final(rpc).to_module_capacity() == old(rpc).to_module_capacity(),
        final(rpc).to_ui_capacity() == old(rpc).to_ui_capacity(),
{
    let result = start_successful_result();
    let ghost msg = BleMessage::StartResult(result);
    let ghost before = rpc.to_ui();
    assert(before.push(msg).drop_last() =~= before);
    send_start_result(rpc, result)
}

/// Tells the host that a peer node was found.
pub fn send_device_found(rpc: &mut BleRpc, qaul_id: Vec<u8>, rssi: i32) -> (kept: bool)
    ensures
        kept == (old(rpc).to_ui().len() < old(rpc).to_ui_capacity()),
        final(rpc).to_ui() == offered(
            old(rpc).to_ui(),
            old(rpc).to_ui_capacity(),
            BleMessage::DeviceDiscovered(BleDeviceDiscovered { qaul_id, rssi }),
        ),
        final(rpc).to_module() == old(rpc).to_module(),
        final(rpc).to_module_capacity() == old(rpc).to_module_capacity(),
        final(rpc).to_ui_capacity() == old(rpc).to_ui_capacity(),
{
    send_ble_sys_msg(rpc, BleMessage::DeviceDiscovered(BleDeviceDiscovered { qaul_id, rssi }))
}

/// Hands a payload received from the peer at `from` to the host.
pub fn send_direct_received(rpc: &mut BleRpc, from: Vec<u8>, data: Vec<u8>) -> (kept: bool)
    ensures
        kept == (old(rpc).to_ui().len() < old(rpc).to_ui_capacity()),
        final(rpc).to_ui() == offered(
            old(rpc).to_ui(),
            old(rpc).to_ui_capacity(),
            BleMessage::DirectReceived(BleDirectReceived { from, data }),
        ),
        final(rpc).to_module() == old(rpc).to_module(),
        final(rpc).to_module_capacity() == old(rpc).to_module_capacity(),
        final(rpc).to_ui_capacity() == old(rpc).to_ui_capacity(),
{
    send_ble_sys_msg(rpc, BleMessage::DirectReceived(BleDirectReceived { from, data }))
}

} // verus!
