use ble_module::{
    application, complete_start, dispatch_request, init, receive_from_ble_module, AcquireStep,
    BleError, BleMessage, BleRpc, BleService, BleStartRequest, BridgeAction, HandleKind,
    ServiceState, StartAttempt, StartDecision, ALREADY_RUNNING_MESSAGE, LOCAL_NAME,
    MAIN_SERVICE_UUID, MSG_CHAR_UUID, MSG_SERVICE_UUID, READ_CHAR_UUID,
};

fn start_request(qaul_id: &[u8]) -> Option<BleMessage> {
    Some(BleMessage::StartRequest(BleStartRequest { qaul_id: qaul_id.to_vec(), advert_mode: None }))
}

fn attempt_of(action: BridgeAction) -> StartAttempt {
    match action {
        BridgeAction::Acquire(a) => a,
        _ => panic!("expected an attempt"),
    }
}

fn run_all_steps(attempt: &mut StartAttempt) -> usize {
    let mut steps = 0;
    loop {
        match attempt.next_step() {
            AcquireStep::Finished => return steps,
            _ => {
                steps += 1;
                attempt.advance(Ok(()));
            }
        }
    }
}

fn started(rpc: &mut BleRpc) -> BleService {
    let mut svc = BleService::new();
    let mut attempt = attempt_of(dispatch_request(&mut svc, rpc, start_request(b"abc123")));
    run_all_steps(&mut attempt);
    let release = complete_start(&mut svc, rpc, attempt);
    assert!(release.is_empty());
    svc
}

#[test]
fn start_on_idle_reports_success() {
    let mut rpc = init();
    let svc = started(&mut rpc);
    assert_eq!(svc.state(), ServiceState::Running);
    match receive_from_ble_module(&mut rpc) {
        Ok(BleMessage::StartResult(r)) => {
            assert!(r.success);
            assert_eq!(r.error_reason, None);
            assert_eq!(r.error_message, "");
        }
        other => panic!("unexpected {:?}", other),
    }
}

// A second start is refused as a structured negative result: the service
// keeps running, but the result says success = false.
#[test]
fn second_start_reports_already_running() {
    let mut rpc = init();
    let mut svc = started(&mut rpc);
    let _ = receive_from_ble_module(&mut rpc);
    let action = dispatch_request(&mut svc, &mut rpc, start_request(b"abc123"));
    assert!(matches!(action, BridgeAction::Nothing));
    assert_eq!(svc.state(), ServiceState::Running);
    match receive_from_ble_module(&mut rpc) {
        Ok(BleMessage::StartResult(r)) => {
            assert!(!r.success);
            assert_eq!(r.error_reason, Some(BleError::UnknownError));
            assert!(!r.error_message.is_empty());
            assert_eq!(r.error_message, ALREADY_RUNNING_MESSAGE);
        }
        other => panic!("unexpected {:?}", other),
    }
}

#[test]
fn start_while_running_acquires_nothing() {
    let mut rpc = init();
    let svc = started(&mut rpc);
    match svc.start(b"other".to_vec(), Some(3)) {
        StartDecision::Refused(r) => assert!(!r.success),
        StartDecision::Acquire(_) => panic!("a running service must not acquire again"),
    }
}

#[test]
fn start_steps_advertise_then_serve_then_discover() {
    let svc = BleService::new();
    let mut attempt = match svc.start(b"abc123".to_vec(), Some(-7)) {
        StartDecision::Acquire(a) => a,
        StartDecision::Refused(_) => panic!("idle service must start"),
    };
    match attempt.next_step() {
        AcquireStep::Advertise(adv) => {
            assert_eq!(adv.service_uuids, vec![MAIN_SERVICE_UUID, MSG_SERVICE_UUID]);
            assert_eq!(adv.tx_power, Some(-7));
            assert!(adv.discoverable);
            assert_eq!(adv.local_name, LOCAL_NAME);
        }
        other => panic!("unexpected {:?}", other),
    }
    attempt.advance(Ok(()));
    match attempt.next_step() {
        AcquireStep::ServeApplication(app) => {
            assert_eq!(app.main_service, MAIN_SERVICE_UUID);
            assert_eq!(app.read_char, READ_CHAR_UUID);
            assert_eq!(app.msg_service, MSG_SERVICE_UUID);
            assert_eq!(app.msg_char, MSG_CHAR_UUID);
            assert_eq!(app.identity, b"abc123".to_vec());
        }
        other => panic!("unexpected {:?}", other),
    }
    attempt.advance(Ok(()));
    assert!(matches!(attempt.next_step(), AcquireStep::Discover));
    attempt.advance(Ok(()));
    assert!(matches!(attempt.next_step(), AcquireStep::Finished));
}

#[test]
fn application_serves_identity() {
    let app = application(vec![1, 2, 3]);
    assert_eq!(app.identity, vec![1, 2, 3]);
    assert_eq!(app.read_char, READ_CHAR_UUID);
}

#[test]
fn failed_serve_rolls_back_advertisement() {
    let mut rpc = init();
    let mut svc = BleService::new();
    let mut attempt = attempt_of(dispatch_request(&mut svc, &mut rpc, start_request(b"abc123")));
    attempt.advance(Ok(()));
    attempt.advance(Err("serve rejected".to_string()));
    assert!(matches!(attempt.next_step(), AcquireStep::Finished));
    let release = complete_start(&mut svc, &mut rpc, attempt);
    assert_eq!(release, vec![HandleKind::Advertisement]);
    assert_eq!(svc.state(), ServiceState::Idle);
    match receive_from_ble_module(&mut rpc) {
        Ok(BleMessage::StartResult(r)) => {
            assert!(!r.success);
            assert_eq!(r.error_message, "serve rejected");
        }
        other => panic!("unexpected {:?}", other),
    }
}

#[test]
fn failed_discovery_rolls_back_newest_first() {
    let mut rpc = init();
    let mut svc = BleService::new();
    let mut attempt = attempt_of(dispatch_request(&mut svc, &mut rpc, start_request(b"x")));
    attempt.advance(Ok(()));
    attempt.advance(Ok(()));
    attempt.advance(Err("scan failed".to_string()));
    let release = complete_start(&mut svc, &mut rpc, attempt);
    assert_eq!(release, vec![HandleKind::Application, HandleKind::Advertisement]);
    assert_eq!(svc.state(), ServiceState::Idle);
}

#[test]
fn answers_after_failure_are_ignored() {
    let svc = BleService::new();
    let mut attempt = match svc.start(vec![1], None) {
        StartDecision::Acquire(a) => a,
        StartDecision::Refused(_) => panic!("idle service must start"),
    };
    attempt.advance(Err("advertise rejected".to_string()));
    attempt.advance(Ok(()));
    assert!(matches!(attempt.next_step(), AcquireStep::Finished));
}

#[test]
fn attempt_finishing_after_another_start_is_rolled_back() {
    let mut rpc = init();
    let mut svc = BleService::new();
    let mut first = attempt_of(dispatch_request(&mut svc, &mut rpc, start_request(b"a")));
    let mut second = attempt_of(dispatch_request(&mut svc, &mut rpc, start_request(b"b")));
    assert_eq!(run_all_steps(&mut first), 3);
    run_all_steps(&mut second);
    assert!(complete_start(&mut svc, &mut rpc, first).is_empty());
    let release = complete_start(&mut svc, &mut rpc, second);
    assert_eq!(release, vec![HandleKind::Application, HandleKind::Advertisement]);
    assert_eq!(svc.state(), ServiceState::Running);
}

#[test]
fn stop_releases_everything_in_order() {
    let mut rpc = init();
    let mut svc = started(&mut rpc);
    let t = match dispatch_request(&mut svc, &mut rpc, Some(BleMessage::StopRequest)) {
        BridgeAction::Teardown(t) => t,
        _ => panic!("expected a teardown"),
    };
    assert!(t.stop_loop);
    assert_eq!(t.release, vec![HandleKind::Application, HandleKind::Advertisement]);
    assert_eq!(svc.state(), ServiceState::Idle);
}

#[test]
fn stop_on_idle_changes_nothing() {
    let mut rpc = init();
    let mut svc = BleService::new();
    let t = svc.stop();
    assert!(!t.stop_loop);
    assert!(t.release.is_empty());
    assert!(t.close_receivers.is_empty());
    assert!(t.close_notify_paths.is_empty());
    assert_eq!(svc.state(), ServiceState::Idle);
    let action = dispatch_request(&mut svc, &mut rpc, Some(BleMessage::StopRequest));
    assert!(matches!(action, BridgeAction::Teardown(_)));
    assert!(receive_from_ble_module(&mut rpc).is_err());
}

#[test]
fn restart_after_stop() {
    let mut rpc = init();
    let mut svc = started(&mut rpc);
    svc.stop();
    let mut attempt = attempt_of(dispatch_request(&mut svc, &mut rpc, start_request(b"again")));
    run_all_steps(&mut attempt);
    assert!(complete_start(&mut svc, &mut rpc, attempt).is_empty());
    assert_eq!(svc.state(), ServiceState::Running);
}

#[test]
fn unavailable_platform_never_starts() {
    let mut rpc = init();
    let mut svc = BleService::unavailable();
    assert_eq!(svc.state(), ServiceState::Error);
    let action = dispatch_request(&mut svc, &mut rpc, start_request(b"abc123"));
    assert!(matches!(action, BridgeAction::Nothing));
    match receive_from_ble_module(&mut rpc) {
        Ok(BleMessage::StartResult(r)) => assert!(!r.success),
        other => panic!("unexpected {:?}", other),
    }
    svc.stop();
    assert_eq!(svc.state(), ServiceState::Error);
}
