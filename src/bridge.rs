//! The control bridge: turns each request of the host into a call on the
//! service and reports results back. Requests are handled one at a time;
//! what needs the adapter comes back as an action for the caller.

use crate::protocol::{BleDeviceInfo, BleInfoResponse, BleMessage};
use crate::rpc::{delivered_one, send_ble_sys_msg, send_start_result, BleRpc};
use crate::queue::offered;
use crate::service::{
    allowed_transition, is_failure_result, is_success_result, reversed, BleService, HandleKind,
    SendPath, ServiceState, StartAttempt, StartDecision, Teardown, ALREADY_RUNNING_MESSAGE,
};
use vstd::prelude::*;

verus! {

/// What the caller does after a request.
pub enum BridgeAction {
    Nothing,
    /// Query the adapter and report with `send_device_info`.
    QueryDeviceInfo,
    /// Run the steps of the attempt, then hand it to `complete_start`.
    Acquire(StartAttempt),
    /// Tear the running service down in this order.
    Teardown(Teardown),
    /// Write the payload on this path; a failure is reported, not retried.
    Send(SendPath),
}

/// What every request leaves alone.
pub open spec fn request_frame(
    before: BleService,
    after: BleService,
    rpc_before: BleRpc,
    rpc_after: BleRpc,
) -> bool {
    &&& after.wf()
    &&& allowed_transition(before.state_spec(), after.state_spec())
    &&& after.block_list() == before.block_list()
    &&& rpc_after.to_module() == rpc_before.to_module()
    &&& rpc_after.to_module_capacity() == rpc_before.to_module_capacity()
    &&& rpc_after.to_ui_capacity() == rpc_before.to_ui_capacity()
}

/// Handles one request of the host.
///
/// A start on an idle service hands out an attempt; on a running one it
/// acquires nothing and reports that the service already runs. A stop on a
/// running service tears it down; on any other it does nothing. A direct
/// send goes out only from a running service. A missing message and
/// messages meant for the host are ignored.
pub fn dispatch_request(service: &mut BleService, rpc: &mut BleRpc, msg: Option<BleMessage>) -> (r:
    BridgeAction)
    requires
        old(service).wf(),
    ensures
        request_frame(*old(service), *final(service), *old(rpc), *final(rpc)),
        match msg {
            Some(BleMessage::InfoRequest) => {
                &&& r is QueryDeviceInfo
                &&& *final(service) == *old(service)
                &&& final(rpc).to_ui() == old(rpc).to_ui()
            },
            Some(BleMessage::StartRequest(req)) => {
                &&& *final(service) == *old(service)
                &&& old(service).state_spec() == ServiceState::Idle ==> {
                    &&& r matches BridgeAction::Acquire(a) && a.qaul_id() == req.qaul_id@
                        && a.advert_mode() == req.advert_mode && a.stage() == 0 && a.failure() is None
                    &&& final(rpc).to_ui() == old(rpc).to_ui()
                }
                &&& old(service).state_spec() != ServiceState::Idle ==> {
                    &&& r is Nothing
                    &&& delivered_one(old(rpc).to_ui(), final(rpc).to_ui(), old(rpc).to_ui_capacity())
                    &&& final(rpc).to_ui().len() > old(rpc).to_ui().len() ==> (
                    final(rpc).to_ui().last() matches BleMessage::StartResult(res) && !res.success
                        && res.error_message@.len() > 0)
                    &&& old(service).state_spec() == ServiceState::Running ==> (final(rpc).to_ui().len() > old(rpc).to_ui().len() ==> (final(rpc).to_ui().last() matches BleMessage::StartResult(res)
                        && is_failure_result(res, ALREADY_RUNNING_MESSAGE@)))
                }
            },
            Some(BleMessage::StopRequest) => {
                &&& final(rpc).to_ui() == old(rpc).to_ui()
                &&& r matches BridgeAction::Teardown(t) && (old(service).state_spec()
                    == ServiceState::Running ==> {
                    &&& final(service).state_spec() == ServiceState::Idle
                    &&& final(service).handles().len() == 0
                    &&& final(service).receivers().len() == 0
                    &&& final(service).notify_paths().len() == 0
                    &&& t.stop_loop
                    &&& t.release@ == reversed(old(service).handles())
                }) && (old(service).state_spec() != ServiceState::Running ==> {
                    &&& *final(service) == *old(service)
                    &&& !t.stop_loop
                    &&& t.release@.len() == 0
                    &&& t.close_receivers@.len() == 0
                    &&& t.close_notify_paths@.len() == 0
                })
            },
            Some(BleMessage::DirectSend(req)) => {
                &&& *final(service) == *old(service)
                &&& final(rpc).to_ui() == old(rpc).to_ui()
                &&& (r is Send) == (old(service).state_spec() == ServiceState::Running
                    && req.to@.len() == 6)
                &&& !(r is Send) ==> r is Nothing
                &&& r matches BridgeAction::Send(p) ==> match p {
                    SendPath::Notify { path, data } => data@ == req.data@,
                    SendPath::Write { peer, data } => data@ == req.data@ && peer@ == req.to@,
                }
            },
            _ => {
                &&& r is Nothing
                &&& *final(service) == *old(service)
                &&& final(rpc).to_ui() == old(rpc).to_ui()
            },
        },
{
    match msg {
        Some(BleMessage::InfoRequest) => BridgeAction::QueryDeviceInfo,
        Some(BleMessage::StartRequest(req)) => {
            match service.start(req.qaul_id, req.advert_mode) {
                StartDecision::Acquire(attempt) => BridgeAction::Acquire(attempt),
                StartDecision::Refused(result) => {
                    proof {
                        reveal_strlit("Received start request, but BLE service is already running!");
                        reveal_strlit("Bluetooth platform is unavailable");
                    }
                    let ghost m = BleMessage::StartResult(result);
                    let ghost before = rpc.to_ui();
                    assert(before.push(m).drop_last() =~= before);
                    send_start_result(rpc, result);
                    BridgeAction::Nothing
                },
            }
        },
        Some(BleMessage::StopRequest) => BridgeAction::Teardown(service.stop()),
        Some(BleMessage::DirectSend(req)) => {
            match service.send_direct(&req.to, req.data) {
                Ok(path) => BridgeAction::Send(path),
                Err(_) => BridgeAction::Nothing,
            }
        },
        _ => BridgeAction::Nothing,
    }
}

/// Hands a start attempt back to the service and reports its result to
/// the host. Returns the resources to release, in this order.
pub fn complete_start(service: &mut BleService, rpc: &mut BleRpc, attempt: StartAttempt) -> (r: Vec<
    HandleKind,
>)
    requires
        old(service).wf(),
    ensures
        request_frame(*old(service), *final(service), *old(rpc), *final(rpc)),
        delivered_one(old(rpc).to_ui(), final(rpc).to_ui(), old(rpc).to_ui_capacity()),
        old(service).state_spec() == ServiceState::Idle && attempt.succeeded() ==> {
            &&& final(service).state_spec() == ServiceState::Running
            &&& final(service).handles() == attempt.acquired()
            &&& final(service).qaul_id() == attempt.qaul_id()
            &&& r@.len() == 0
            &&& final(rpc).to_ui().len() > old(rpc).to_ui().len() ==> (final(rpc).to_ui().last() matches BleMessage::StartResult(res) && is_success_result(res))
        },
        !(old(service).state_spec() == ServiceState::Idle && attempt.succeeded()) ==> {
            &&& *final(service) == *old(service)
            &&& r@ == reversed(attempt.acquired())
            &&& final(rpc).to_ui().len() > old(rpc).to_ui().len() ==> (final(rpc).to_ui().last() matches BleMessage::StartResult(res) && !res.success
                && (attempt.failure() matches Some(e) ==> is_failure_result(res, e)))
        },
{
    let outcome = service.finish_start(attempt);
    let ghost m = BleMessage::StartResult(outcome.result);
    let ghost before = rpc.to_ui();
    assert(before.push(m).drop_last() =~= before);
    send_start_result(rpc, outcome.result);
    outcome.release
}

/// Largest advertisement, in bytes, assumed when the adapter does not say.
pub const DEFAULT_MAX_ADV_LENGTH: u8 = 30;

/// Longest advertisement of the legacy format, in bytes.
pub const LEGACY_ADV_LENGTH: u8 = 31;

/// The capability snapshot of an adapter: its address and name, whether it
/// is powered, whether the platform offloads advertising to hardware, and
/// the longest advertisement it supports, if it says.
pub fn device_info(
    id: String,
    name: String,
    bluetooth_on: bool,
    hardware_offload: bool,
    max_adv_length: Option<u8>,
) -> (info: BleDeviceInfo)
    ensures
        info.ble_support,
        info.id@ == id@,
        info.name@ == name@,
        info.bluetooth_on == bluetooth_on,
        info.le_multiple_adv_support == hardware_offload,
        info.adv_extended_bytes == match max_adv_length {
            Some(n) => n as u32,
            None => DEFAULT_MAX_ADV_LENGTH as u32,
        },
        info.adv_extended == (info.adv_extended_bytes > LEGACY_ADV_LENGTH),
        !info.le_2m && !info.le_coded && !info.le_audio && !info.le_periodic_adv_support,
        !info.offload_filter_support && !info.offload_scan_batching_support,
{
    let max_len = match max_adv_length {
        Some(n) => n,
        None => DEFAULT_MAX_ADV_LENGTH,
    };
    BleDeviceInfo {
        ble_support: true,
        id,
        name,
        bluetooth_on,
        adv_extended: max_len > LEGACY_ADV_LENGTH,
        adv_extended_bytes: max_len as u32,
        le_2m: false,
        le_coded: false,
        le_audio: false,
        le_periodic_adv_support: false,
        le_multiple_adv_support: hardware_offload,
        offload_filter_support: false,
        offload_scan_batching_support: false,
    }
}

/// Answers an information request with the snapshot `info`.
pub fn send_device_info(rpc: &mut BleRpc, info: BleDeviceInfo) -> (kept: bool)
    ensures
        kept == (old(rpc).to_ui().len() < old(rpc).to_ui_capacity()),
        final(rpc).to_ui() == offered(
            old(rpc).to_ui(),
            old(rpc).to_ui_capacity(),
            BleMessage::InfoResponse(BleInfoResponse { device: Some(info) }),
        ),
        final(rpc).to_module() == old(rpc).to_module(),
        final(rpc).to_module_capacity() == old(rpc).to_module_capacity(),
        final(rpc).to_ui_capacity() == old(rpc).to_ui_capacity(),
{
    send_ble_sys_msg(rpc, BleMessage::InfoResponse(BleInfoResponse { device: Some(info) }))
}

} // verus!
