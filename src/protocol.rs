//! Messages of the control protocol between the host application and this
//! module, and the identifiers of the two GATT services.

use vstd::prelude::*;

verus! {

/// Identifier of the main service, which carries the node identity.
pub const MAIN_SERVICE_UUID: u128 = 0x99E91399_80ED_4943_9BCB_39C532A76023;

/// Identifier of the read-only characteristic holding the node identity.
pub const READ_CHAR_UUID: u128 = 0x99E91400_80ED_4943_9BCB_39C532A76023;

/// Identifier of the message service.
pub const MSG_SERVICE_UUID: u128 = 0x99E91401_80ED_4943_9BCB_39C532A76023;

/// Identifier of the write-without-response message characteristic.
pub const MSG_CHAR_UUID: u128 = 0x99E91402_80ED_4943_9BCB_39C532A76023;

/// Signal strength reported when the adapter could not measure it.
pub const RSSI_UNKNOWN: i32 = 999;

/// Local name carried by every advertisement.
pub const LOCAL_NAME: &'static str = "qaul.net";

/// The hardware address of a Bluetooth device.
#[derive(Clone, Copy, Debug, PartialEq, Eq)]
pub struct Address {
    pub octets: [u8; 6],
}

impl Address {
    /// The six octets, most significant first.
    pub open spec fn view(&self) -> Seq<u8> {
        self.octets@
    }

    /// Whether both name the same device.
    pub fn same(&self, other: &Address) -> (r: bool)
        ensures
            r == (self@ == other@),
    {
        let mut i: usize = 0;
        while i < 6
            invariant
                0 <= i <= 6,
                self@.len() == 6,
                other@.len() == 6,
                forall|j: int| 0 <= j < i ==> self@[j] == other@[j],
            decreases 6 - i,
        {
            if self.octets[i] != other.octets[i] {
                return false;
            }
            i = i + 1;
        }
        assert(self@ =~= other@);
        true
    }

    /// The address of a six-byte sequence; `None` for any other length.
    pub fn from_bytes(bytes: &[u8]) -> (r: Option<Address>)
        ensures
            bytes@.len() == 6 <==> r is Some,
            r matches Some(a) ==> a@ == bytes@,
    {
        if bytes.len() != 6 {
            return None;
        }
        let a = Address { octets: [bytes[0], bytes[1], bytes[2], bytes[3], bytes[4], bytes[5]] };
        assert(a@ =~= bytes@);
        Some(a)
    }

    /// The six octets as a vector.
    pub fn to_bytes(&self) -> (r: Vec<u8>)
        ensures
            r@ == self@,
    {
        let mut r: Vec<u8> = Vec::new();
        let mut i: usize = 0;
        while i < 6
            invariant
                0 <= i <= 6,
                self@.len() == 6,
                r@ == self@.subrange(0, i as int),
            decreases 6 - i,
        {
            r.push(self.octets[i]);
            i = i + 1;
            assert(r@ =~= self@.subrange(0, i as int));
        }
        assert(self@.subrange(0, 6) =~= self@);
        r
    }
}

/// Reasons a start attempt reports to the host.
#[derive(Clone, Copy, Debug, PartialEq, Eq, Structural)]
pub enum BleError {
    UnknownError,
    RightsMissing,
    Timeout,
}

/// Capabilities of the local adapter.
#[derive(Clone, Debug)]
pub struct BleDeviceInfo {
    pub ble_support: bool,
    pub id: String,
    pub name: String,
    pub bluetooth_on: bool,
    pub adv_extended: bool,
    pub adv_extended_bytes: u32,
    pub le_2m: bool,
    pub le_coded: bool,
    pub le_audio: bool,
    pub le_periodic_adv_support: bool,
    pub le_multiple_adv_support: bool,
    pub offload_filter_support: bool,
    pub offload_scan_batching_support: bool,
}

/// Answer to an information request.
#[derive(Clone, Debug)]
pub struct BleInfoResponse {
    pub device: Option<BleDeviceInfo>,
}

/// Asks the module to start advertising, serving and scanning.
#[derive(Clone, Debug)]
pub struct BleStartRequest {
    /// Identity of this node, served on the main characteristic.
    pub qaul_id: Vec<u8>,
    /// Transmit-power hint for the advertisement.
    pub advert_mode: Option<i16>,
}

/// Outcome of a start request.
#[derive(Clone, Debug)]
pub struct BleStartResult {
    pub success: bool,
    pub error_reason: Option<BleError>,
    pub error_message: String,
}

/// A peer node was found.
#[derive(Clone, Debug)]
pub struct BleDeviceDiscovered {
    pub qaul_id: Vec<u8>,
    pub rssi: i32,
}

/// Asks the module to send a payload to a peer.
#[derive(Clone, Debug)]
pub struct BleDirectSend {
    /// Address of the peer, six bytes.
    pub to: Vec<u8>,
    pub data: Vec<u8>,
}

/// A payload arrived from a peer.
#[derive(Clone, Debug)]
pub struct BleDirectReceived {
    /// Address of the peer, six bytes.
    pub from: Vec<u8>,
    pub data: Vec<u8>,
}

/// One message of the control protocol, in either direction.
#[derive(Clone, Debug)]
pub enum BleMessage {
    InfoRequest,
    InfoResponse(BleInfoResponse),
    StartRequest(BleStartRequest),
    StartResult(BleStartResult),
    StopRequest,
    DeviceDiscovered(BleDeviceDiscovered),
    DirectSend(BleDirectSend),
    DirectReceived(BleDirectReceived),
}

} // verus!
