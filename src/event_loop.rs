//! What the running service does with each event of its merged sources:
//! payloads from peers, streams that open and close, and devices the scan
//! reports. Waiting on the sources is the caller's part; each event that
//! arrives is handed to `handle_loop_event`, which reports to the host and
//! says what to do next.

use crate::protocol::{Address, BleMessage};
use crate::rpc::{delivered_one, send_ble_sys_msg, BleRpc};
use crate::service::{
    peer_steps, reported_rssi, BleService, DiscoveryAction, MessageReceiver, NotifyPath,
    PeerStep, RemoteCharacteristic, ServiceState,
};
use vstd::prelude::*;

verus! {

/// One event of the sources the running service waits on.
#[derive(Debug)]
pub enum LoopEvent {
    /// A payload arrived on a registered receiver.
    MessageReceived { receiver: u64, data: Vec<u8> },
    /// A registered receiver or notify path closed.
    StreamClosed { id: u64 },
    /// A peer wrote to the message characteristic and its stream was
    /// accepted.
    WriteAccepted { peer: Address },
    /// A peer subscribed to this node's notifications.
    NotifySubscribed { peer: Address },
    /// An event on the main characteristic; reads are answered by the served
    /// application itself.
    MainCharacteristic,
    /// The scan reported a device with the services it advertises.
    DeviceDiscovered { peer: Address, uuids: Vec<u128>, connected: bool },
    /// A connected peer's characteristics were enumerated.
    PeerEnumerated { peer: Address, characteristics: Vec<RemoteCharacteristic> },
    /// A subscription to a peer's notifications opened a stream.
    PeerSubscribed { peer: Address },
    /// A peer's identity was read, with the signal strength if measured.
    IdentityRead { peer: Address, qaul_id: Vec<u8>, rssi: Option<i16> },
}

/// What the caller does after an event.
#[derive(Debug)]
pub enum LoopAction {
    Nothing,
    /// Keep the stream that just opened, under this identifier.
    KeepStream { id: u64 },
    /// Close the stream that just opened: it was not registered.
    DropStream,
    /// Connect to the peer, then enumerate its characteristics.
    Connect { peer: Address },
    /// Enumerate the characteristics of the already connected peer.
    Enumerate { peer: Address },
    /// Carry out these steps on the enumerated characteristics.
    SetUpPeer { peer: Address, steps: Vec<PeerStep> },
}

/// What every event leaves alone: the lifecycle state, the resources, the
/// block list, the requests from the host and both capacities.
pub open spec fn event_frame(
    before: BleService,
    after: BleService,
    rpc_before: BleRpc,
    rpc_after: BleRpc,
) -> bool {
    &&& after.wf()
    &&& after.state_spec() == before.state_spec()
    &&& after.handles() == before.handles()
    &&& after.block_list() == before.block_list()
    &&& after.qaul_id() == before.qaul_id()
    &&& rpc_after.to_module() == rpc_before.to_module()
    &&& rpc_after.to_module_capacity() == rpc_before.to_module_capacity()
    &&& rpc_after.to_ui_capacity() == rpc_before.to_ui_capacity()
}

/// Handles one event of the running service.
///
/// A payload on a registered receiver goes to the host unchanged, with the
/// address of that receiver's peer. A blocked device is never connected and
/// never announced. A service that is not running changes nothing, reports
/// nothing and closes every stream offered to it.
pub fn handle_loop_event(service: &mut BleService, rpc: &mut BleRpc, evt: LoopEvent) -> (r:
    LoopAction)
    requires
        old(service).wf(),
    ensures
        event_frame(*old(service), *final(service), *old(rpc), *final(rpc)),
        old(service).state_spec() != ServiceState::Running ==> {
            &&& *final(service) == *old(service)
            &&& final(rpc).to_ui() == old(rpc).to_ui()
            &&& r is Nothing || r is DropStream
        },
        match evt {
            LoopEvent::MessageReceived { receiver, data } => {
                &&& r is Nothing
                &&& final(service).receivers() == old(service).receivers()
                &&& final(service).notify_paths() == old(service).notify_paths()
                &&& old(service).has_receiver(receiver) ==> {
                    &&& delivered_one(old(rpc).to_ui(), final(rpc).to_ui(), old(rpc).to_ui_capacity())
                    &&& final(rpc).to_ui().len() > old(rpc).to_ui().len() ==> (
                    final(rpc).to_ui().last() matches BleMessage::DirectReceived(m) && m.data@
                        == data@ && exists|i: int|
                        0 <= i < old(service).receivers().len() && (#[trigger] old(service).receivers()[i]).id == receiver && m.from@ == old(service).receivers()[i].peer@)
                }
                &&& !old(service).has_receiver(receiver) ==> final(rpc).to_ui() == old(rpc).to_ui()
            },
            LoopEvent::StreamClosed { id } => {
                &&& r is Nothing
                &&& final(rpc).to_ui() == old(rpc).to_ui()
                &&& !final(service).has_receiver(id)
                &&& forall|m: MessageReceiver|
                    final(service).receivers().contains(m) <==> (old(service).receivers().contains(
                        m,
                    ) && m.id != id)
                &&& forall|p: NotifyPath|
                    final(service).notify_paths().contains(p) <==> (old(service).notify_paths().contains(p) && p.id != id)
            },
            LoopEvent::WriteAccepted { peer } | LoopEvent::PeerSubscribed { peer } => {
                &&& final(rpc).to_ui() == old(rpc).to_ui()
                &&& final(service).notify_paths() == old(service).notify_paths()
                &&& match r {
                    LoopAction::KeepStream { id } => {
                        &&& final(service).receivers() == old(service).receivers().push(
                            MessageReceiver { id, peer },
                        )
                        &&& final(service).has_receiver(id)
                    },
                    LoopAction::DropStream => final(service).receivers() == old(service).receivers(),
                    _ => false,
                }
            },
            LoopEvent::NotifySubscribed { peer } => {
                &&& final(rpc).to_ui() == old(rpc).to_ui()
                &&& final(service).receivers() == old(service).receivers()
                &&& match r {
                    LoopAction::KeepStream { id } => final(service).notify_paths() == old(
                        service,
                    ).notify_paths().push(NotifyPath { id, peer }),
                    LoopAction::DropStream => final(service).notify_paths() == old(
                        service,
                    ).notify_paths(),
                    _ => false,
                }
            },
            LoopEvent::MainCharacteristic => {
                &&& r is Nothing
                &&& *final(service) == *old(service)
                &&& final(rpc).to_ui() == old(rpc).to_ui()
            },
            LoopEvent::DeviceDiscovered { peer, uuids, connected } => {
                &&& *final(service) == *old(service)
                &&& final(rpc).to_ui() == old(rpc).to_ui()
                &&& (r is Nothing) == (old(service).state_spec() != ServiceState::Running
                    || old(service).blocks(peer@) || !uuids@.contains(
                    crate::protocol::MAIN_SERVICE_UUID,
                ))
                &&& r is Connect ==> !connected
                &&& r is Enumerate ==> connected
                &&& r is Nothing || r is Connect || r is Enumerate
            },
            LoopEvent::PeerEnumerated { peer, characteristics } => {
                &&& *final(service) == *old(service)
                &&& final(rpc).to_ui() == old(rpc).to_ui()
                &&& old(service).state_spec() == ServiceState::Running && !old(service).blocks(
                    peer@,
                ) ==> (r matches LoopAction::SetUpPeer { peer: p, steps } && p == peer
                    && steps@ == peer_steps(characteristics@))
                &&& old(service).blocks(peer@) ==> r is Nothing
            },
            LoopEvent::IdentityRead { peer, qaul_id, rssi } => {
                &&& r is Nothing
                &&& *final(service) == *old(service)
                &&& old(service).blocks(peer@) ==> final(rpc).to_ui() == old(rpc).to_ui()
                &&& old(service).state_spec() == ServiceState::Running && !old(service).blocks(
                    peer@,
                ) ==> {
                    &&& delivered_one(old(rpc).to_ui(), final(rpc).to_ui(), old(rpc).to_ui_capacity())
                    &&& final(rpc).to_ui().len() > old(rpc).to_ui().len() ==> (
                    final(rpc).to_ui().last() matches BleMessage::DeviceDiscovered(d)
                        && d.qaul_id@ == qaul_id@ && d.rssi == reported_rssi(rssi))
                }
            },
        },
{
    if service.state() != ServiceState::Running {
        assert(service.receivers().len() == 0);
        assert(forall|id: u64| !service.has_receiver(id));
        return match evt {
            LoopEvent::WriteAccepted { .. }
            | LoopEvent::PeerSubscribed { .. }
            | LoopEvent::NotifySubscribed { .. } => LoopAction::DropStream,
            _ => LoopAction::Nothing,
        };
    }
    match evt {
        LoopEvent::MessageReceived { receiver, data } => {
            if let Some(m) = service.on_message(receiver, data) {
                let ghost msg = BleMessage::DirectReceived(m);
                let ghost before = rpc.to_ui();
                assert(before.push(msg).drop_last() =~= before);
                send_ble_sys_msg(rpc, BleMessage::DirectReceived(m));
            }
            LoopAction::Nothing
        },
        LoopEvent::StreamClosed { id } => {
            service.on_stream_closed(id);
            LoopAction::Nothing
        },
        LoopEvent::WriteAccepted { peer } | LoopEvent::PeerSubscribed { peer } => {
            match service.on_subscribed(peer) {
                Some(id) => LoopAction::KeepStream { id },
                None => LoopAction::DropStream,
            }
        },
        LoopEvent::NotifySubscribed { peer } => {
            match service.on_notify_subscribed(peer) {
                Some(id) => LoopAction::KeepStream { id },
                None => LoopAction::DropStream,
            }
        },
        LoopEvent::MainCharacteristic => LoopAction::Nothing,
        LoopEvent::DeviceDiscovered { peer, uuids, connected } => {
            match service.on_device_discovered(&peer, &uuids, connected) {
                DiscoveryAction::Ignore => LoopAction::Nothing,
                DiscoveryAction::Connect => LoopAction::Connect { peer },
                DiscoveryAction::Enumerate => LoopAction::Enumerate { peer },
            }
        },
        LoopEvent::PeerEnumerated { peer, characteristics } => {
            if service.is_blocked(&peer) {
                return LoopAction::Nothing;
            }
            let steps = service.plan_peer_setup(&peer, &characteristics);
            LoopAction::SetUpPeer { peer, steps }
        },
        LoopEvent::IdentityRead { peer, qaul_id, rssi } => {
            if let Some(d) = service.on_identity_read(&peer, qaul_id, rssi) {
                let ghost msg = BleMessage::DeviceDiscovered(d);
                let ghost before = rpc.to_ui();
                assert(before.push(msg).drop_last() =~= before);
                send_ble_sys_msg(rpc, BleMessage::DeviceDiscovered(d));
            }
            LoopAction::Nothing
        },
    }
}

} // verus!
