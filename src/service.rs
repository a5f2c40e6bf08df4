//! The lifecycle of the BLE service: which resources it holds, when it may
//! start and stop, and how a start attempt acquires its resources one by one
//! and rolls them back on failure.

use crate::protocol::{
    Address, BleDeviceDiscovered, BleDirectReceived, BleError, BleStartResult, LOCAL_NAME,
    MAIN_SERVICE_UUID, MSG_CHAR_UUID, MSG_SERVICE_UUID, READ_CHAR_UUID, RSSI_UNKNOWN,
};
use vstd::prelude::*;

verus! {

/// Lifecycle state of a service instance.
#[derive(Clone, Copy, Debug, PartialEq, Eq, Structural)]
pub enum ServiceState {
    Idle,
    Running,
    /// The platform could not be opened; terminal for the instance.
    Error,
}

/// A resource that the running service holds from the adapter. The
/// control handles of the served characteristics and services belong to
/// the application and are released with it.
#[derive(Clone, Copy, Debug, PartialEq, Eq, Structural)]
pub enum HandleKind {
    Advertisement,
    Application,
}

/// An open inbound byte stream from a peer.
#[derive(Clone, Copy, Debug, PartialEq, Eq)]
pub struct MessageReceiver {
    pub id: u64,
    pub peer: Address,
}

/// An outbound path to a peer that subscribed to notifications.
#[derive(Clone, Copy, Debug, PartialEq, Eq)]
pub struct NotifyPath {
    pub id: u64,
    pub peer: Address,
}

/// The broadcast packet to publish.
#[derive(Clone, Debug)]
pub struct AdvertisementSpec {
    pub service_uuids: Vec<u128>,
    pub tx_power: Option<i16>,
    pub discoverable: bool,
    pub local_name: String,
}

/// The GATT application to serve: a main service with a read-only identity
/// characteristic and a message service with a write-without-response
/// characteristic.
#[derive(Clone, Debug)]
pub struct ApplicationSpec {
    pub main_service: u128,
    pub read_char: u128,
    pub identity: Vec<u8>,
    pub msg_service: u128,
    pub msg_char: u128,
}

/// The advertisement a start publishes for the given power hint.
pub open spec fn is_advertisement_for(a: AdvertisementSpec, advert_mode: Option<i16>) -> bool {
    &&& a.service_uuids@ == seq![MAIN_SERVICE_UUID, MSG_SERVICE_UUID]
    &&& a.tx_power == advert_mode
    &&& a.discoverable
    &&& a.local_name@ == LOCAL_NAME@
}

/// The application a start serves for the given node identity.
pub open spec fn is_application_for(app: ApplicationSpec, qaul_id: Seq<u8>) -> bool {
    &&& app.main_service == MAIN_SERVICE_UUID
    &&& app.read_char == READ_CHAR_UUID
    &&& app.identity@ == qaul_id
    &&& app.msg_service == MSG_SERVICE_UUID
    &&& app.msg_char == MSG_CHAR_UUID
}

/// The advertisement for a power hint.
pub fn advertisement(advert_mode: Option<i16>) -> (a: AdvertisementSpec)
    ensures
        is_advertisement_for(a, advert_mode),
{
    let mut service_uuids: Vec<u128> = Vec::new();
    service_uuids.push(MAIN_SERVICE_UUID);
    service_uuids.push(MSG_SERVICE_UUID);
    assert(service_uuids@ =~= seq![MAIN_SERVICE_UUID, MSG_SERVICE_UUID]);
    AdvertisementSpec {
        service_uuids,
        tx_power: advert_mode,
        discoverable: true,
        local_name: LOCAL_NAME.to_owned(),
    }
}

/// The application serving `qaul_id` on the main characteristic.
pub fn application(qaul_id: Vec<u8>) -> (app: ApplicationSpec)
    ensures
        is_application_for(app, qaul_id@),
{
    ApplicationSpec {
        main_service: MAIN_SERVICE_UUID,
        read_char: READ_CHAR_UUID,
        identity: qaul_id,
        msg_service: MSG_SERVICE_UUID,
        msg_char: MSG_CHAR_UUID,
    }
}

/// Resources held after the first `stage` acquisition steps succeeded:
/// the advertisement, then the application; installing the discovery
/// filter adds none.
pub open spec fn acquired_after(stage: nat) -> Seq<HandleKind> {
    if stage == 0 {
        Seq::empty()
    } else if stage == 1 {
        seq![HandleKind::Advertisement]
    } else {
        seq![HandleKind::Advertisement, HandleKind::Application]
    }
}

/// Number of acquisition steps of a start.
pub const START_STEPS: u8 = 3;

/// What a start attempt asks the adapter for next.
#[derive(Clone, Debug)]
pub enum AcquireStep {
    Advertise(AdvertisementSpec),
    ServeApplication(ApplicationSpec),
    Discover,
    /// Nothing more: hand the attempt back with `BleService::finish_start`.
    Finished,
}

/// A start in progress, created by `BleService::start` on an idle service.
pub struct StartAttempt {
    qaul_id: Vec<u8>,
    advert_mode: Option<i16>,
    stage: u8,
    failure: Option<String>,
}

impl StartAttempt {
    /// Node identity the attempt serves.
    pub closed spec fn qaul_id(&self) -> Seq<u8> {
        self.qaul_id@
    }

    /// Transmit-power hint of the attempt.
    pub closed spec fn advert_mode(&self) -> Option<i16> {
        self.advert_mode
    }

    /// Number of acquisition steps that succeeded.
    pub closed spec fn stage(&self) -> nat {
        self.stage as nat
    }

    /// Why the attempt failed, if it did.
    pub closed spec fn failure(&self) -> Option<Seq<char>> {
        match self.failure {
            Some(e) => Some(e@),
            None => None,
        }
    }

    /// Whether every acquisition step succeeded.
    pub open spec fn succeeded(&self) -> bool {
        self.failure() is None && self.stage() >= START_STEPS
    }

    /// Whether the attempt asks for nothing more.
    pub open spec fn is_finished(&self) -> bool {
        self.failure() is Some || self.stage() >= START_STEPS
    }

    /// Resources the adapter handed out to this attempt so far.
    pub open spec fn acquired(&self) -> Seq<HandleKind> {
        acquired_after(self.stage())
    }

    /// The next request to the adapter.
    pub fn next_step(&self) -> (r: AcquireStep)
        ensures
            self.is_finished() ==> r is Finished,
            !self.is_finished() && self.stage() == 0 ==> (r matches AcquireStep::Advertise(a)
                && is_advertisement_for(a, self.advert_mode())),
            !self.is_finished() && self.stage() == 1 ==> (r matches AcquireStep::ServeApplication(
                app,
            ) && is_application_for(app, self.qaul_id())),
            !self.is_finished() && self.stage() == 2 ==> r is Discover,
    {
        if self.failure.is_some() || self.stage >= START_STEPS {
            AcquireStep::Finished
        } else if self.stage == 0 {
            AcquireStep::Advertise(advertisement(self.advert_mode))
        } else if self.stage == 1 {
            AcquireStep::ServeApplication(application(self.qaul_id.clone()))
        } else {
            AcquireStep::Discover
        }
    }

    /// Records what the adapter answered to the step `next_step` gave.
    /// A finished attempt ignores further answers.
    pub fn advance(&mut self, outcome: Result<(), String>)
        ensures
            final(self).qaul_id() == old(self).qaul_id(),
            final(self).advert_mode() == old(self).advert_mode(),
            old(self).is_finished() ==> final(self).stage() == old(self).stage()
                && final(self).failure() == old(self).failure(),
            !old(self).is_finished() ==> match outcome {
                Ok(()) => final(self).stage() == old(self).stage() + 1
                    && final(self).failure() is None,
                Err(e) => final(self).stage() == old(self).stage()
                    && final(self).failure() == Some(e@),
            },
    {
        if self.failure.is_some() || self.stage >= START_STEPS {
            return;
        }
        match outcome {
            Ok(()) => {
                self.stage = self.stage + 1;
            },
            Err(e) => {
                self.failure = Some(e);
            },
        }
    }
}

/// What the service answers to a start request.
pub enum StartDecision {
    /// Acquire the resources step by step, then call `finish_start`.
    Acquire(StartAttempt),
    /// Nothing is acquired; report this result.
    Refused(BleStartResult),
}

/// What the service answers when a start attempt is handed back.
pub struct StartOutcome {
    /// The result to report to the host.
    pub result: BleStartResult,
    /// Resources of the attempt to release, in this order.
    pub release: Vec<HandleKind>,
}

/// What a stop asks the caller to tear down, in this order: the event
/// loop, the open receivers and notify paths, then the resources.
pub struct Teardown {
    pub stop_loop: bool,
    pub close_receivers: Vec<u64>,
    pub close_notify_paths: Vec<u64>,
    pub release: Vec<HandleKind>,
}

/// Message of the result refusing a start on a running service.
pub const ALREADY_RUNNING_MESSAGE: &'static str =
    "Received start request, but BLE service is already running!";

/// Message of the result for an attempt handed back unfinished.
pub const INCOMPLETE_MESSAGE: &'static str = "start attempt handed back before it finished";

/// Message of the result refusing a start on an unusable platform.
pub const UNAVAILABLE_MESSAGE: &'static str = "Bluetooth platform is unavailable";

/// The result reported for a start that succeeded.
pub open spec fn is_success_result(r: BleStartResult) -> bool {
    r.success && r.error_reason is None && r.error_message@.len() == 0
}

/// A result that reports a failed start with the given message.
pub open spec fn is_failure_result(r: BleStartResult, message: Seq<char>) -> bool {
    !r.success && r.error_reason == Some(BleError::UnknownError) && r.error_message@ == message
}

/// The result reporting a successful start.
pub fn start_successful_result() -> (r: BleStartResult)
    ensures
        is_success_result(r),
{
    BleStartResult { success: true, error_reason: None, error_message: String::new() }
}

/// A result reporting a failed start.
pub fn start_failed_result(message: String) -> (r: BleStartResult)
    ensures
        is_failure_result(r, message@),
{
    BleStartResult {
        success: false,
        error_reason: Some(BleError::UnknownError),
        error_message: message,
    }
}

/// The result refusing a start because the service is already running.
pub fn already_running_result() -> (r: BleStartResult)
    ensures
        is_failure_result(r, ALREADY_RUNNING_MESSAGE@),
        r.error_message@.len() > 0,
{
    proof {
        reveal_strlit("Received start request, but BLE service is already running!");
    }
    start_failed_result(ALREADY_RUNNING_MESSAGE.to_owned())
}

/// The state changes a service may go through: it stays, an idle service
/// starts, a running one stops.
pub open spec fn allowed_transition(before: ServiceState, after: ServiceState) -> bool {
    ||| before == after
    ||| before == ServiceState::Idle && after == ServiceState::Running
    ||| before == ServiceState::Running && after == ServiceState::Idle
}

/// Every run of a service goes through allowed transitions only, so along
/// any run a service that did not begin in `Error` never reaches it, and
/// one that began there never leaves it.
pub proof fn lemma_error_is_never_entered(states: Seq<ServiceState>)
    requires
        forall|i: int|
            0 <= i < states.len() - 1 ==> allowed_transition(
                #[trigger] states[i],
                states[i + 1],
            ),
    ensures
        forall|i: int|
            0 <= i < states.len() ==> ((#[trigger] states[i] == ServiceState::Error) == (states[0]
                == ServiceState::Error)),
    decreases states.len(),
{
    if states.len() > 1 {
        let earlier = states.drop_last();
        assert forall|i: int| 0 <= i < earlier.len() - 1 implies allowed_transition(
            #[trigger] earlier[i],
            earlier[i + 1],
        ) by {
            assert(earlier[i] == states[i] && earlier[i + 1] == states[i + 1]);
        }
        lemma_error_is_never_entered(earlier);
        let last = states.len() - 1;
        assert(allowed_transition(states[last - 1], states[last]));
        assert(earlier[last - 1] == states[last - 1]);
        assert forall|i: int| 0 <= i < states.len() implies ((#[trigger] states[i]
            == ServiceState::Error) == (states[0] == ServiceState::Error)) by {
            if i < last {
                assert(earlier[i] == states[i]);
            }
        }
    }
}

/// `s` reversed.
pub open spec fn reversed<T>(s: Seq<T>) -> Seq<T> {
    Seq::new(s.len(), |i: int| s[s.len() - 1 - i])
}

/// A characteristic of a connected peer, as its enumeration reported it.
#[derive(Clone, Copy, Debug, PartialEq, Eq, Structural)]
pub struct RemoteCharacteristic {
    /// Identifier of the service the characteristic belongs to.
    pub service_uuid: u128,
    pub uuid: u128,
    pub read: bool,
    pub notify: bool,
    pub indicate: bool,
}

/// What to do with one characteristic of a connected peer.
#[derive(Clone, Copy, Debug, PartialEq, Eq, Structural)]
pub enum PeerStepKind {
    /// Subscribe to it; once subscribed, register the stream with
    /// `BleService::on_subscribed`.
    Subscribe,
    /// Read the peer's identity from it, then report it with
    /// `BleService::on_identity_read`.
    ReadIdentity,
}

/// One step of setting up a connected peer.
#[derive(Clone, Copy, Debug, PartialEq, Eq, Structural)]
pub struct PeerStep {
    /// Position of the characteristic in the enumeration.
    pub index: usize,
    pub kind: PeerStepKind,
}

/// What a characteristic of a peer calls for: those of the main service
/// that notify or indicate carry the peer's messages, its readable identity
/// characteristic carries the peer's identity, the others are ignored.
pub open spec fn step_kind(c: RemoteCharacteristic) -> Option<PeerStepKind> {
    if c.service_uuid != MAIN_SERVICE_UUID {
        None
    } else if c.notify || c.indicate {
        Some(PeerStepKind::Subscribe)
    } else if c.read && c.uuid == READ_CHAR_UUID {
        Some(PeerStepKind::ReadIdentity)
    } else {
        None
    }
}

/// The steps for an enumeration, in its order.
pub open spec fn peer_steps(cs: Seq<RemoteCharacteristic>) -> Seq<PeerStep>
    decreases cs.len(),
{
    if cs.len() == 0 {
        Seq::empty()
    } else {
        let earlier = peer_steps(cs.drop_last());
        match step_kind(cs.last()) {
            Some(kind) => earlier.push(PeerStep { index: (cs.len() - 1) as usize, kind }),
            None => earlier,
        }
    }
}

/// Whether `c` is a peer's message characteristic.
pub open spec fn is_message_characteristic(c: RemoteCharacteristic) -> bool {
    c.service_uuid == MSG_SERVICE_UUID && c.uuid == MSG_CHAR_UUID
}

/// Position of the first message characteristic in a peer's enumeration,
/// the one a direct write goes to.
pub fn message_characteristic(characteristics: &Vec<RemoteCharacteristic>) -> (r: Option<usize>)
    ensures
        r is None <==> forall|i: int|
            0 <= i < characteristics@.len() ==> !is_message_characteristic(
                #[trigger] characteristics@[i],
            ),
        r matches Some(i) ==> i < characteristics@.len() && is_message_characteristic(
            characteristics@[i as int],
        ) && forall|j: int|
            0 <= j < i ==> !is_message_characteristic(#[trigger] characteristics@[j]),
{
    let mut i: usize = 0;
    while i < characteristics.len()
        invariant
            0 <= i <= characteristics@.len(),
            forall|j: int|
                0 <= j < i ==> !is_message_characteristic(#[trigger] characteristics@[j]),
        decreases characteristics@.len() - i,
    {
        let c = characteristics[i];
        if c.service_uuid == MSG_SERVICE_UUID && c.uuid == MSG_CHAR_UUID {
            return Some(i);
        }
        i = i + 1;
    }
    None
}

/// What to do with a device the scan reported.
#[derive(Clone, Copy, Debug, PartialEq, Eq, Structural)]
pub enum DiscoveryAction {
    /// Not a candidate: blocked, not a node of this network, or the service
    /// is not running.
    Ignore,
    /// Connect, then enumerate its characteristics.
    Connect,
    /// Already connected: enumerate its characteristics.
    Enumerate,
}

/// Where a direct send goes.
#[derive(Clone, Debug)]
pub enum SendPath {
    /// Notify the peer on the path it subscribed to.
    Notify { path: u64, data: Vec<u8> },
    /// Write to the peer's message characteristic.
    Write { peer: Address, data: Vec<u8> },
}

/// Why a direct send was not attempted.
#[derive(Clone, Copy, Debug, PartialEq, Eq, Structural)]
pub enum SendError {
    NotRunning,
    /// The destination is not a six-byte address.
    InvalidAddress,
}

/// The signal strength reported for a measurement, with a sentinel when
/// there is none.
pub open spec fn reported_rssi(rssi: Option<i16>) -> i32 {
    match rssi {
        Some(v) => v as i32,
        None => RSSI_UNKNOWN,
    }
}

/// The whole state of a BLE service instance.
pub struct BleService {
    state: ServiceState,
    handles: Vec<HandleKind>,
    qaul_id: Vec<u8>,
    block_list: Vec<Address>,
    receivers: Vec<MessageReceiver>,
    notify_paths: Vec<NotifyPath>,
    next_id: u64,
}

impl BleService {
    pub closed spec fn state_spec(&self) -> ServiceState {
        self.state
    }

    /// Resources held, in the order they were acquired.
    pub closed spec fn handles(&self) -> Seq<HandleKind> {
        self.handles@
    }

    /// Identity served while running.
    pub closed spec fn qaul_id(&self) -> Seq<u8> {
        self.qaul_id@
    }

    /// Addresses excluded from discovery.
    pub closed spec fn block_list(&self) -> Seq<Address> {
        self.block_list@
    }

    /// Registered inbound streams.
    pub closed spec fn receivers(&self) -> Seq<MessageReceiver> {
        self.receivers@
    }

    /// Recorded notify paths.
    pub closed spec fn notify_paths(&self) -> Seq<NotifyPath> {
        self.notify_paths@
    }

    /// The next identifier a new stream gets.
    pub closed spec fn next_id(&self) -> u64 {
        self.next_id
    }

    /// Whether `a` is on the block list.
    pub open spec fn blocks(&self, a: Seq<u8>) -> bool {
        exists|i: int| 0 <= i < self.block_list().len() && (#[trigger] self.block_list()[i])@ == a
    }

    /// Whether a receiver is registered under `id`.
    pub open spec fn has_receiver(&self, id: u64) -> bool {
        exists|i: int| 0 <= i < self.receivers().len() && (#[trigger] self.receivers()[i]).id == id
    }

    /// The invariant of every instance: only a running service holds
    /// resources and streams, and stream identifiers are distinct and below
    /// `next_id`.
    pub open spec fn wf(&self) -> bool {
        &&& self.state_spec() != ServiceState::Running ==> {
            &&& self.handles().len() == 0
            &&& self.receivers().len() == 0
            &&& self.notify_paths().len() == 0
        }
        &&& forall|i: int|
            0 <= i < self.receivers().len() ==> (#[trigger] self.receivers()[i]).id
                < self.next_id()
        &&& forall|i: int, j: int|
            0 <= i < j < self.receivers().len() ==> (#[trigger] self.receivers()[i]).id
                != (#[trigger] self.receivers()[j]).id
        &&& forall|i: int|
            0 <= i < self.notify_paths().len() ==> (#[trigger] self.notify_paths()[i]).id
                < self.next_id()
        &&& forall|i: int, j: int|
            0 <= i < j < self.notify_paths().len() ==> (#[trigger] self.notify_paths()[i]).id
                != (#[trigger] self.notify_paths()[j]).id
    }

    /// An idle service with an empty block list.
    pub fn new() -> (s: Self)
        ensures
            s.wf(),
            s.state_spec() == ServiceState::Idle,
            s.block_list().len() == 0,
    {
        BleService {
            state: ServiceState::Idle,
            handles: Vec::new(),
            qaul_id: Vec::new(),
            block_list: Vec::new(),
            receivers: Vec::new(),
            notify_paths: Vec::new(),
            next_id: 0,
        }
    }

    /// A service whose platform could not be opened: it stays in `Error`.
    pub fn unavailable() -> (s: Self)
        ensures
            s.wf(),
            s.state_spec() == ServiceState::Error,
            s.block_list().len() == 0,
    {
        BleService {
            state: ServiceState::Error,
            handles: Vec::new(),
            qaul_id: Vec::new(),
            block_list: Vec::new(),
            receivers: Vec::new(),
            notify_paths: Vec::new(),
            next_id: 0,
        }
    }

    /// The lifecycle state.
    pub fn state(&self) -> (r: ServiceState)
        ensures
            r == self.state_spec(),
    {
        self.state
    }

    /// Answers a start request. Only an idle service starts; a running or
    /// failed one acquires nothing and reports why.
    pub fn start(&self, qaul_id: Vec<u8>, advert_mode: Option<i16>) -> (r: StartDecision)
        ensures
            self.state_spec() == ServiceState::Idle ==> (r matches StartDecision::Acquire(a) && a.qaul_id() == qaul_id@
                && a.advert_mode() == advert_mode && a.stage() == 0 && a.failure() is None),
            self.state_spec() == ServiceState::Running ==> (r matches StartDecision::Refused(res)
                && is_failure_result(res, ALREADY_RUNNING_MESSAGE@)),
            self.state_spec() == ServiceState::Error ==> (r matches StartDecision::Refused(res)
                && is_failure_result(res, UNAVAILABLE_MESSAGE@)),
    {
        match self.state {
            ServiceState::Idle => StartDecision::Acquire(
                StartAttempt { qaul_id, advert_mode, stage: 0, failure: None },
            ),
            ServiceState::Running => StartDecision::Refused(already_running_result()),
            ServiceState::Error => {
                proof {
                    reveal_strlit("Bluetooth platform is unavailable");
                }
                StartDecision::Refused(start_failed_result(UNAVAILABLE_MESSAGE.to_owned()))
            },
        }
    }
    /// Takes a start attempt back. An idle service whose attempt acquired
    /// everything is now running with those resources. Otherwise nothing
    /// changes: the attempt's resources are released, newest first, and the
    /// result says why the start failed.
    pub fn finish_start(&mut self, attempt: StartAttempt) -> (r: StartOutcome)
        requires
            old(self).wf(),
        ensures
            final(self).wf(),
            allowed_transition(old(self).state_spec(), final(self).state_spec()),
            final(self).block_list() == old(self).block_list(),
            old(self).state_spec() == ServiceState::Idle && attempt.succeeded() ==> {
                &&& final(self).state_spec() == ServiceState::Running
                &&& final(self).handles() == attempt.acquired()
                &&& final(self).qaul_id() == attempt.qaul_id()
                &&& final(self).receivers().len() == 0
                &&& final(self).notify_paths().len() == 0
                &&& is_success_result(r.result)
                &&& r.release@.len() == 0
            },
            !(old(self).state_spec() == ServiceState::Idle && attempt.succeeded()) ==> {
                &&& *final(self) == *old(self)
                &&& r.release@ == reversed(attempt.acquired())
                &&& !r.result.success
                &&& (attempt.failure() matches Some(e) ==> is_failure_result(r.result, e))
                &&& (attempt.failure() is None && old(self).state_spec() == ServiceState::Running
                    ==> is_failure_result(r.result, ALREADY_RUNNING_MESSAGE@))
            },
    {
        if self.state == ServiceState::Idle && attempt.failure.is_none() && attempt.stage
            >= START_STEPS {
            let mut handles: Vec<HandleKind> = Vec::new();
            handles.push(HandleKind::Advertisement);
            handles.push(HandleKind::Application);
            assert(handles@ =~= attempt.acquired());
            self.state = ServiceState::Running;
            self.handles = handles;
            self.qaul_id = attempt.qaul_id;
            return StartOutcome { result: start_successful_result(), release: Vec::new() };
        }
        let mut release: Vec<HandleKind> = Vec::new();
        if attempt.stage >= 2 {
            release.push(HandleKind::Application);
        }
        if attempt.stage >= 1 {
            release.push(HandleKind::Advertisement);
        }
        assert(release@ =~= reversed(attempt.acquired()));
        let result = match attempt.failure {
            Some(e) => start_failed_result(e),
            None => match self.state {
                ServiceState::Running => already_running_result(),
                ServiceState::Error => {
                    proof {
                        reveal_strlit("Bluetooth platform is unavailable");
                    }
                    start_failed_result(UNAVAILABLE_MESSAGE.to_owned())
                },
                ServiceState::Idle => {
                    proof {
                        reveal_strlit("start attempt handed back before it finished");
                    }
                    start_failed_result(INCOMPLETE_MESSAGE.to_owned())
                },
            },
        };
        StartOutcome { result, release }
    }

    /// Stops a running service: the event loop ends, every receiver and
    /// notify path is closed and the resources are released, newest first.
    /// An idle or failed service is left as it is and nothing is torn down.
    pub fn stop(&mut self) -> (t: Teardown)
        requires
            old(self).wf(),
        ensures
            final(self).wf(),
            allowed_transition(old(self).state_spec(), final(self).state_spec()),
            final(self).block_list() == old(self).block_list(),
            old(self).state_spec() == ServiceState::Running ==> {
                &&& final(self).state_spec() == ServiceState::Idle
                &&& final(self).handles().len() == 0
                &&& final(self).receivers().len() == 0
                &&& final(self).notify_paths().len() == 0
                &&& t.stop_loop
                &&& t.close_receivers@ == old(self).receivers().map_values(
                    |m: MessageReceiver| m.id,
                )
                &&& t.close_notify_paths@ == old(self).notify_paths().map_values(
                    |p: NotifyPath| p.id,
                )
                &&& t.release@ == reversed(old(self).handles())
            },
            old(self).state_spec() != ServiceState::Running ==> {
                &&& *final(self) == *old(self)
                &&& !t.stop_loop
                &&& t.close_receivers@.len() == 0
                &&& t.close_notify_paths@.len() == 0
                &&& t.release@.len() == 0
            },
    {
        if self.state != ServiceState::Running {
            return Teardown {
                stop_loop: false,
                close_receivers: Vec::new(),
                close_notify_paths: Vec::new(),
                release: Vec::new(),
            };
        }
        let mut close_receivers: Vec<u64> = Vec::new();
        let mut i: usize = 0;
        while i < self.receivers.len()
            invariant
                0 <= i <= self.receivers@.len(),
                close_receivers@ == self.receivers@.subrange(0, i as int).map_values(
                    |m: MessageReceiver| m.id,
                ),
            decreases self.receivers@.len() - i,
        {
            close_receivers.push(self.receivers[i].id);
            i = i + 1;
            assert(close_receivers@ =~= self.receivers@.subrange(0, i as int).map_values(
                |m: MessageReceiver| m.id,
            ));
        }
        assert(self.receivers@.subrange(0, i as int) =~= self.receivers@);
        let mut close_notify_paths: Vec<u64> = Vec::new();
        let mut j: usize = 0;
        while j < self.notify_paths.len()
            invariant
                0 <= j <= self.notify_paths@.len(),
                close_notify_paths@ == self.notify_paths@.subrange(0, j as int).map_values(
                    |p: NotifyPath| p.id,
                ),
            decreases self.notify_paths@.len() - j,
        {
            close_notify_paths.push(self.notify_paths[j].id);
            j = j + 1;
            assert(close_notify_paths@ =~= self.notify_paths@.subrange(0, j as int).map_values(
                |p: NotifyPath| p.id,
            ));
        }
        assert(self.notify_paths@.subrange(0, j as int) =~= self.notify_paths@);
        let mut release: Vec<HandleKind> = Vec::new();
        let mut k: usize = self.handles.len();
        while k > 0
            invariant
                k <= self.handles@.len(),
                release@ =~= reversed(self.handles@.subrange(k as int, self.handles@.len() as int)),
            decreases k,
        {
            k = k - 1;
            release.push(self.handles[k]);
            assert(release@ =~= reversed(
                self.handles@.subrange(k as int, self.handles@.len() as int),
            ));
        }
        assert(self.handles@.subrange(0, self.handles@.len() as int) =~= self.handles@);
        self.state = ServiceState::Idle;
        self.handles = Vec::new();
        self.qaul_id = Vec::new();
        self.receivers = Vec::new();
        self.notify_paths = Vec::new();
        Teardown { stop_loop: true, close_receivers, close_notify_paths, release }
    }
    /// Whether `a` is on the block list.
    pub fn is_blocked(&self, a: &Address) -> (r: bool)
        ensures
            r == self.blocks(a@),
    {
        let mut i: usize = 0;
        while i < self.block_list.len()
            invariant
                0 <= i <= self.block_list@.len(),
                forall|j: int| 0 <= j < i ==> (#[trigger] self.block_list@[j])@ != a@,
            decreases self.block_list@.len() - i,
        {
            if self.block_list[i].same(a) {
                assert(self.block_list()[i as int]@ == a@);
                return true;
            }
            i = i + 1;
        }
        false
    }

    /// Excludes `a` from discovery.
    pub fn block_device(&mut self, a: Address)
        requires
            old(self).wf(),
        ensures
            final(self).wf(),
            forall|x: Seq<u8>| final(self).blocks(x) <==> (old(self).blocks(x) || x == a@),
            final(self).state_spec() == old(self).state_spec(),
            final(self).handles() == old(self).handles(),
            final(self).receivers() == old(self).receivers(),
            final(self).notify_paths() == old(self).notify_paths(),
            final(self).next_id() == old(self).next_id(),
            final(self).qaul_id() == old(self).qaul_id(),
    {
        if self.is_blocked(&a) {
            return;
        }
        self.block_list.push(a);
        assert forall|x: Seq<u8>| self.blocks(x) <==> (old(self).blocks(x) || x == a@) by {
            if old(self).blocks(x) {
                let i = choose|i: int|
                    0 <= i < old(self).block_list().len() && (#[trigger] old(
                        self,
                    ).block_list()[i])@ == x;
                assert(self.block_list()[i]@ == x);
            }
            if x == a@ {
                assert(self.block_list()[self.block_list().len() - 1]@ == x);
            }
        }
    }

    /// Takes `a` off the block list.
    pub fn unblock_device(&mut self, a: &Address)
        requires
            old(self).wf(),
        ensures
            final(self).wf(),
            forall|x: Seq<u8>| final(self).blocks(x) <==> (old(self).blocks(x) && x != a@),
            final(self).state_spec() == old(self).state_spec(),
            final(self).handles() == old(self).handles(),
            final(self).receivers() == old(self).receivers(),
            final(self).notify_paths() == old(self).notify_paths(),
            final(self).next_id() == old(self).next_id(),
            final(self).qaul_id() == old(self).qaul_id(),
    {
        let mut kept: Vec<Address> = Vec::new();
        let mut i: usize = 0;
        while i < self.block_list.len()
            invariant
                0 <= i <= self.block_list@.len(),
                forall|k: int| 0 <= k < kept@.len() ==> (#[trigger] kept@[k])@ != a@,
                forall|k: int|
                    #![trigger kept@[k]]
                    0 <= k < kept@.len() ==> exists|j: int|
                        0 <= j < i && (#[trigger] self.block_list@[j]) == kept@[k],
                forall|j: int|
                    0 <= j < i && (#[trigger] self.block_list@[j])@ != a@ ==> exists|k: int|
                        0 <= k < kept@.len() && (#[trigger] kept@[k]) == self.block_list@[j],
            decreases self.block_list@.len() - i,
        {
            let b = self.block_list[i];
            let ghost earlier = kept@;
            if !b.same(a) {
                kept.push(b);
                assert(kept@[kept@.len() - 1] == self.block_list@[i as int]);
            }
            assert forall|j: int|
                0 <= j < i + 1 && (#[trigger] self.block_list@[j])@ != a@ implies exists|k: int|
                    0 <= k < kept@.len() && (#[trigger] kept@[k]) == self.block_list@[j] by {
                if j < i {
                    let k = choose|k: int|
                        0 <= k < earlier.len() && (#[trigger] earlier[k]) == self.block_list@[j];
                    assert(kept@[k] == earlier[k]);
                } else {
                    assert(kept@[kept@.len() - 1] == self.block_list@[j]);
                }
            }
            assert forall|k: int| #![trigger kept@[k]] 0 <= k < kept@.len() implies exists|j: int|
                0 <= j < i + 1 && (#[trigger] self.block_list@[j]) == kept@[k] by {
                if k < earlier.len() {
                    assert(kept@[k] == earlier[k]);
                    let j = choose|j: int|
                        0 <= j < i && (#[trigger] self.block_list@[j]) == earlier[k];
                    assert(self.block_list@[j] == kept@[k]);
                } else {
                    assert(self.block_list@[i as int] == kept@[k]);
                }
            }
            i = i + 1;
        }
        let ghost before = self.block_list@;
        self.block_list = kept;
        assert forall|x: Seq<u8>| self.blocks(x) <==> (old(self).blocks(x) && x != a@) by {
            if self.blocks(x) {
                let k = choose|k: int|
                    0 <= k < self.block_list().len() && (#[trigger] self.block_list()[k])@ == x;
                let j = choose|j: int| 0 <= j < before.len() && (#[trigger] before[j]) == kept@[k];
                assert(old(self).block_list()[j]@ == x);
            }
            if old(self).blocks(x) && x != a@ {
                let j = choose|j: int|
                    0 <= j < old(self).block_list().len() && (#[trigger] old(
                        self,
                    ).block_list()[j])@ == x;
                assert(before[j]@ != a@);
                let k = choose|k: int| 0 <= k < kept@.len() && (#[trigger] kept@[k]) == before[j];
                assert(self.block_list()[k]@ == x);
            }
        }
    }

    /// Decides about a device the scan reported: only a running service
    /// considers it, and only if it is not blocked and advertises the main
    /// service. It is connected unless it already is.
    pub fn on_device_discovered(&self, peer: &Address, uuids: &Vec<u128>, connected: bool) -> (r:
        DiscoveryAction)
        ensures
            (r == DiscoveryAction::Ignore) == (self.state_spec() != ServiceState::Running
                || self.blocks(peer@) || !uuids@.contains(MAIN_SERVICE_UUID)),
            r != DiscoveryAction::Ignore ==> (r == DiscoveryAction::Connect) == !connected,
    {
        if self.state != ServiceState::Running || self.is_blocked(peer) {
            return DiscoveryAction::Ignore;
        }
        let mut i: usize = 0;
        while i < uuids.len()
            invariant
                0 <= i <= uuids@.len(),
                self.state == ServiceState::Running,
                !self.blocks(peer@),
                forall|j: int| 0 <= j < i ==> uuids@[j] != MAIN_SERVICE_UUID,
            decreases uuids@.len() - i,
        {
            if uuids[i] == MAIN_SERVICE_UUID {
                assert(uuids@[i as int] == MAIN_SERVICE_UUID);
                assert(uuids@.contains(MAIN_SERVICE_UUID));
                return if connected {
                    DiscoveryAction::Enumerate
                } else {
                    DiscoveryAction::Connect
                };
            }
            i = i + 1;
        }
        DiscoveryAction::Ignore
    }

    /// The steps that set up a connected peer from its characteristics.
    /// A blocked peer, or any peer while the service is not running, gets
    /// none.
    pub fn plan_peer_setup(&self, peer: &Address, characteristics: &Vec<RemoteCharacteristic>) -> (r:
        Vec<PeerStep>)
        ensures
            self.state_spec() == ServiceState::Running && !self.blocks(peer@) ==> r@ == peer_steps(
                characteristics@,
            ),
            self.state_spec() != ServiceState::Running || self.blocks(peer@) ==> r@.len() == 0,
    {
        let mut steps: Vec<PeerStep> = Vec::new();
        if self.state != ServiceState::Running || self.is_blocked(peer) {
            return steps;
        }
        let mut i: usize = 0;
        while i < characteristics.len()
            invariant
                0 <= i <= characteristics@.len(),
                steps@ == peer_steps(characteristics@.subrange(0, i as int)),
            decreases characteristics@.len() - i,
        {
            let c = characteristics[i];
            let ghost prefix = characteristics@.subrange(0, i as int + 1);
            assert(prefix.drop_last() =~= characteristics@.subrange(0, i as int));
            assert(prefix.last() == c);
            if c.service_uuid == MAIN_SERVICE_UUID {
                if c.notify || c.indicate {
                    steps.push(PeerStep { index: i, kind: PeerStepKind::Subscribe });
                } else if c.read && c.uuid == READ_CHAR_UUID {
                    steps.push(PeerStep { index: i, kind: PeerStepKind::ReadIdentity });
                }
            }
            i = i + 1;
        }
        assert(characteristics@.subrange(0, i as int) =~= characteristics@);
        steps
    }

    /// Reports a peer whose identity was read: a running service announces
    /// it with the measured signal strength, or the sentinel when there is
    /// none; a blocked peer is never announced.
    pub fn on_identity_read(&self, peer: &Address, qaul_id: Vec<u8>, rssi: Option<i16>) -> (r:
        Option<BleDeviceDiscovered>)
        ensures
            r is Some <==> (self.state_spec() == ServiceState::Running && !self.blocks(peer@)),
            r matches Some(d) ==> d.qaul_id@ == qaul_id@ && d.rssi == reported_rssi(rssi),
    {
        if self.state != ServiceState::Running || self.is_blocked(peer) {
            return None;
        }
        let rssi = match rssi {
            Some(v) => v as i32,
            None => RSSI_UNKNOWN,
        };
        Some(BleDeviceDiscovered { qaul_id, rssi })
    }

    /// Position of the receiver registered under `id`.
    fn find_receiver(&self, id: u64) -> (r: Option<usize>)
        ensures
            r is None <==> !self.has_receiver(id),
            r matches Some(i) ==> i < self.receivers().len() && self.receivers()[i as int].id == id,
    {
        let mut i: usize = 0;
        while i < self.receivers.len()
            invariant
                0 <= i <= self.receivers@.len(),
                forall|j: int| 0 <= j < i ==> (#[trigger] self.receivers@[j]).id != id,
            decreases self.receivers@.len() - i,
        {
            if self.receivers[i].id == id {
                return Some(i);
            }
            i = i + 1;
        }
        None
    }

    /// Position of the notify path registered under `id`.
    fn find_notify_path(&self, id: u64) -> (r: Option<usize>)
        ensures
            r is None <==> !(exists|j: int|
                0 <= j < self.notify_paths().len() && (#[trigger] self.notify_paths()[j]).id == id),
            r matches Some(i) ==> i < self.notify_paths().len() && self.notify_paths()[i as int].id
                == id,
    {
        let mut i: usize = 0;
        while i < self.notify_paths.len()
            invariant
                0 <= i <= self.notify_paths@.len(),
                forall|j: int| 0 <= j < i ==> (#[trigger] self.notify_paths@[j]).id != id,
            decreases self.notify_paths@.len() - i,
        {
            if self.notify_paths[i].id == id {
                assert(self.notify_paths()[i as int].id == id);
                return Some(i);
            }
            i = i + 1;
        }
        None
    }

    /// A payload arrived on the receiver registered under `id`: it is
    /// handed on unchanged, with the address of the receiver's peer.
    /// Nothing is reported for an unknown receiver.
    pub fn on_message(&self, id: u64, data: Vec<u8>) -> (r: Option<BleDirectReceived>)
        requires
            self.wf(),
        ensures
            r is Some <==> self.has_receiver(id),
            r matches Some(m) ==> {
                &&& self.state_spec() == ServiceState::Running
                &&& m.data@ == data@
                &&& exists|i: int|
                    0 <= i < self.receivers().len() && (#[trigger] self.receivers()[i]).id == id
                        && m.from@ == self.receivers()[i].peer@
            },
    {
        match self.find_receiver(id) {
            Some(i) => {
                let from = self.receivers[i].peer.to_bytes();
                Some(BleDirectReceived { from, data })
            },
            None => None,
        }
    }

    /// Registers an inbound stream from `peer`: a write on the message
    /// characteristic, or a subscription to a peer's notifications.
    /// Returns the identifier of the new receiver; a service that is not
    /// running, or has no identifier left, registers nothing.
    pub fn on_subscribed(&mut self, peer: Address) -> (r: Option<u64>)
        requires
            old(self).wf(),
        ensures
            final(self).wf(),
            final(self).state_spec() == old(self).state_spec(),
            final(self).handles() == old(self).handles(),
            final(self).block_list() == old(self).block_list(),
            final(self).notify_paths() == old(self).notify_paths(),
            final(self).qaul_id() == old(self).qaul_id(),
            r is Some <==> (old(self).state_spec() == ServiceState::Running && old(self).next_id()
                < u64::MAX),
            r matches Some(id) ==> {
                &&& id == old(self).next_id()
                &&& !old(self).has_receiver(id)
                &&& final(self).receivers() == old(self).receivers().push(
                    MessageReceiver { id, peer },
                )
                &&& final(self).next_id() == id + 1
                &&& final(self).has_receiver(id)
            },
            r is None ==> *final(self) == *old(self),
    {
        if self.state != ServiceState::Running || self.next_id == u64::MAX {
            return None;
        }
        let id = self.next_id;
        self.receivers.push(MessageReceiver { id, peer });
        self.next_id = id + 1;
        assert(self.receivers()[self.receivers().len() - 1].id == id);
        Some(id)
    }

    /// Records the outbound path of a peer that subscribed to this node's
    /// notifications. Returns its identifier; a service that is not
    /// running, or has no identifier left, records nothing.
    pub fn on_notify_subscribed(&mut self, peer: Address) -> (r: Option<u64>)
        requires
            old(self).wf(),
        ensures
            final(self).wf(),
            final(self).state_spec() == old(self).state_spec(),
            final(self).handles() == old(self).handles(),
            final(self).block_list() == old(self).block_list(),
            final(self).receivers() == old(self).receivers(),
            final(self).qaul_id() == old(self).qaul_id(),
            r is Some <==> (old(self).state_spec() == ServiceState::Running && old(self).next_id()
                < u64::MAX),
            r matches Some(id) ==> {
                &&& id == old(self).next_id()
                &&& final(self).notify_paths() == old(self).notify_paths().push(
                    NotifyPath { id, peer },
                )
                &&& final(self).next_id() == id + 1
            },
            r is None ==> *final(self) == *old(self),
    {
        if self.state != ServiceState::Running || self.next_id == u64::MAX {
            return None;
        }
        let id = self.next_id;
        self.notify_paths.push(NotifyPath { id, peer });
        self.next_id = id + 1;
        Some(id)
    }

    /// The stream registered under `id` closed: its receiver or notify path
    /// is forgotten.
    pub fn on_stream_closed(&mut self, id: u64)
        requires
            old(self).wf(),
        ensures
            final(self).wf(),
            final(self).state_spec() == old(self).state_spec(),
            final(self).handles() == old(self).handles(),
            final(self).block_list() == old(self).block_list(),
            final(self).next_id() == old(self).next_id(),
            final(self).qaul_id() == old(self).qaul_id(),
            !final(self).has_receiver(id),
            forall|m: MessageReceiver|
                final(self).receivers().contains(m) <==> (old(self).receivers().contains(m)
                    && m.id != id),
            forall|p: NotifyPath|
                final(self).notify_paths().contains(p) <==> (old(self).notify_paths().contains(p)
                    && p.id != id),
    {
        self.forget_receiver(id);
        self.forget_notify_path(id);
    }

    fn forget_receiver(&mut self, id: u64)
        requires
            old(self).wf(),
        ensures
            final(self).wf(),
            final(self).state_spec() == old(self).state_spec(),
            final(self).handles() == old(self).handles(),
            final(self).block_list() == old(self).block_list(),
            final(self).next_id() == old(self).next_id(),
            final(self).qaul_id() == old(self).qaul_id(),
            final(self).notify_paths() == old(self).notify_paths(),
            !final(self).has_receiver(id),
            forall|m: MessageReceiver|
                final(self).receivers().contains(m) <==> (old(self).receivers().contains(m)
                    && m.id != id),
    {
        if let Some(i) = self.find_receiver(id) {
            let ghost before = self.receivers@;
            self.receivers.remove(i);
            assert forall|x: int, y: int|
                0 <= x < y < self.receivers@.len() implies (#[trigger] self.receivers@[x]).id
                != (#[trigger] self.receivers@[y]).id by {
                let ox = if x < i { x } else { x + 1 };
                let oy = if y < i { y } else { y + 1 };
                assert(self.receivers@[x] == before[ox]);
                assert(self.receivers@[y] == before[oy]);
                assert(before[ox].id != before[oy].id);
            }
            assert forall|x: int|
                0 <= x < self.receivers@.len() implies (#[trigger] self.receivers@[x]).id
                < self.next_id by {
                let ox = if x < i { x } else { x + 1 };
                assert(self.receivers@[x] == before[ox]);
            }
            assert forall|x: int|
                0 <= x < self.receivers@.len() implies (#[trigger] self.receivers@[x]).id != id by {
                let ox = if x < i { x } else { x + 1 };
                assert(self.receivers@[x] == before[ox]);
                assert(ox != i);
                assert(before[ox].id != before[i as int].id);
            }
            assert forall|m: MessageReceiver|
                self.receivers@.contains(m) <==> (before.contains(m) && m.id != id) by {
                if before.contains(m) && m.id != id {
                    let j = choose|j: int| 0 <= j < before.len() && before[j] == m;
                    if j < i {
                        assert(self.receivers@[j] == m);
                    } else {
                        assert(j != i);
                        assert(self.receivers@[j - 1] == m);
                    }
                }
                if self.receivers@.contains(m) {
                    let k = choose|k: int| 0 <= k < self.receivers@.len() && self.receivers@[k] == m;
                    if k < i {
                        assert(before[k] == m);
                    } else {
                        assert(before[k + 1] == m);
                    }
                }
            }
        }
    }

    fn forget_notify_path(&mut self, id: u64)
        requires
            old(self).wf(),
        ensures
            final(self).wf(),
            final(self).state_spec() == old(self).state_spec(),
            final(self).handles() == old(self).handles(),
            final(self).block_list() == old(self).block_list(),
            final(self).next_id() == old(self).next_id(),
            final(self).qaul_id() == old(self).qaul_id(),
            final(self).receivers() == old(self).receivers(),
            forall|p: NotifyPath|
                final(self).notify_paths().contains(p) <==> (old(self).notify_paths().contains(p)
                    && p.id != id),
    {
        if let Some(i) = self.find_notify_path(id) {
            let ghost before = self.notify_paths@;
            self.notify_paths.remove(i);
            assert forall|x: int, y: int|
                0 <= x < y < self.notify_paths@.len() implies (#[trigger] self.notify_paths@[x]).id
                != (#[trigger] self.notify_paths@[y]).id by {
                let ox = if x < i { x } else { x + 1 };
                let oy = if y < i { y } else { y + 1 };
                assert(self.notify_paths@[x] == before[ox]);
                assert(self.notify_paths@[y] == before[oy]);
                assert(before[ox].id != before[oy].id);
            }
            assert forall|x: int|
                0 <= x < self.notify_paths@.len() implies (#[trigger] self.notify_paths@[x]).id
                < self.next_id by {
                let ox = if x < i { x } else { x + 1 };
                assert(self.notify_paths@[x] == before[ox]);
            }
            assert forall|p: NotifyPath|
                self.notify_paths@.contains(p) <==> (before.contains(p) && p.id != id) by {
                if before.contains(p) && p.id != id {
                    let j = choose|j: int| 0 <= j < before.len() && before[j] == p;
                    if j < i {
                        assert(self.notify_paths@[j] == p);
                    } else {
                        assert(j != i);
                        assert(self.notify_paths@[j - 1] == p);
                    }
                }
                if self.notify_paths@.contains(p) {
                    let k = choose|k: int|
                        0 <= k < self.notify_paths@.len() && self.notify_paths@[k] == p;
                    if k < i {
                        assert(before[k] == p);
                    } else {
                        assert(before[k + 1] == p);
                    }
                }
            }
        }
    }

    /// Where a direct send to the peer at `to` goes: the notify path the
    /// peer subscribed to, the oldest if there are several, or else the
    /// peer's message characteristic. Nothing changes either way.
    pub fn send_direct(&self, to: &Vec<u8>, data: Vec<u8>) -> (r: Result<SendPath, SendError>)
        ensures
            self.state_spec() != ServiceState::Running ==> r == Err::<SendPath, SendError>(
                SendError::NotRunning,
            ),
            self.state_spec() == ServiceState::Running && to@.len() != 6 ==> r == Err::<
                SendPath,
                SendError,
            >(SendError::InvalidAddress),
            self.state_spec() == ServiceState::Running && to@.len() == 6 ==> match r {
                Ok(SendPath::Notify { path, data: d }) => {
                    &&& d@ == data@
                    &&& exists|i: int|
                        0 <= i < self.notify_paths().len() && (#[trigger] self.notify_paths()[i]).id
                            == path && self.notify_paths()[i].peer@ == to@ && forall|j: int|
                            0 <= j < i ==> (#[trigger] self.notify_paths()[j]).peer@ != to@
                },
                Ok(SendPath::Write { peer, data: d }) => {
                    &&& d@ == data@
                    &&& peer@ == to@
                    &&& forall|j: int|
                        0 <= j < self.notify_paths().len() ==> (#[trigger] self.notify_paths()[j]).peer@
                            != to@
                },
                Err(_) => false,
            },
    {
        if self.state != ServiceState::Running {
            return Err(SendError::NotRunning);
        }
        let peer = match Address::from_bytes(to.as_slice()) {
            Some(a) => a,
            None => {
                return Err(SendError::InvalidAddress);
            },
        };
        let mut i: usize = 0;
        while i < self.notify_paths.len()
            invariant
                0 <= i <= self.notify_paths@.len(),
                peer@ == to@,
                self.state == ServiceState::Running,
                forall|j: int| 0 <= j < i ==> (#[trigger] self.notify_paths@[j]).peer@ != to@,
            decreases self.notify_paths@.len() - i,
        {
            if self.notify_paths[i].peer.same(&peer) {
                assert(self.notify_paths()[i as int].id == self.notify_paths[i as int].id);
                return Ok(SendPath::Notify { path: self.notify_paths[i].id, data });
            }
            i = i + 1;
        }
        Ok(SendPath::Write { peer, data })
    }
}

} // verus!
