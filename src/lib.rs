//! Bluetooth-Low-Energy transport module of a mesh node: the service
//! lifecycle, the event handling of the running service, device discovery
//! decisions and the control protocol towards the host application.
//!
//! Everything that talks to the radio stack or to other threads is driven
//! from outside: the functions here take what the adapter reported and say
//! what to do next.

mod api;
mod bridge;
mod event_loop;
mod models;
mod protocol;
mod queue;
mod rpc;
mod service;

pub use api::{
    initialization_finished, receive_rpc, receive_rpc_queued, receive_sys, send_rpc,
    send_rpc_count, send_sys, Libqaul,
};
pub use bridge::{
    complete_start, device_info, dispatch_request, send_device_info, BridgeAction,
    DEFAULT_MAX_ADV_LENGTH, LEGACY_ADV_LENGTH,
};
pub use event_loop::{handle_loop_event, LoopAction, LoopEvent};
pub use models::{FileFilter, QaulError, Token, TOKEN_LEN};
pub use protocol::{
    Address, BleDeviceDiscovered, BleDeviceInfo, BleDirectReceived, BleDirectSend, BleError,
    BleInfoResponse, BleMessage, BleStartRequest, BleStartResult, LOCAL_NAME, MAIN_SERVICE_UUID,
    MSG_CHAR_UUID, MSG_SERVICE_UUID, READ_CHAR_UUID, RSSI_UNKNOWN,
};
pub use queue::{BoundedQueue, TryRecvError};
pub use rpc::{
    init, queue_length_ble_to_ui, receive_from_ble_module, receive_request, send_ble_sys_msg,
    send_device_found, send_direct_received, send_result_already_running, send_start_result,
    send_start_successful, send_to_ble_module, BleRpc, SYS_CHANNEL_CAPACITY,
};
pub use service::{
    advertisement, already_running_result, application, message_characteristic, AcquireStep, AdvertisementSpec,
    ApplicationSpec, BleService, DiscoveryAction, HandleKind, MessageReceiver, NotifyPath,
    PeerStep, PeerStepKind, RemoteCharacteristic, SendError, SendPath, ServiceState,
    StartAttempt, StartDecision, StartOutcome, Teardown, ALREADY_RUNNING_MESSAGE,
    INCOMPLETE_MESSAGE, START_STEPS, UNAVAILABLE_MESSAGE,
};
