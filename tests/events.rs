use ble_module::{
    complete_start, dispatch_request, handle_loop_event, init, message_characteristic,
    queue_length_ble_to_ui,
    receive_from_ble_module, Address, AcquireStep, BleMessage, BleRpc, BleService,
    BleStartRequest, BridgeAction, DiscoveryAction, LoopAction, LoopEvent, PeerStep,
    PeerStepKind, RemoteCharacteristic, SendError, SendPath, MAIN_SERVICE_UUID,
    MSG_CHAR_UUID, MSG_SERVICE_UUID, READ_CHAR_UUID, RSSI_UNKNOWN,
};

const A: Address = Address { octets: [0xAA, 0x01, 0x02, 0x03, 0x04, 0x05] };
const B: Address = Address { octets: [0xBB, 0x01, 0x02, 0x03, 0x04, 0x05] };
const C: Address = Address { octets: [0xCC, 0x01, 0x02, 0x03, 0x04, 0x05] };

fn running(rpc: &mut BleRpc) -> BleService {
    let mut svc = BleService::new();
    let req = BleStartRequest { qaul_id: b"abc123".to_vec(), advert_mode: None };
    let mut attempt = match dispatch_request(&mut svc, rpc, Some(BleMessage::StartRequest(req))) {
        BridgeAction::Acquire(a) => a,
        _ => panic!("expected an attempt"),
    };
    while !matches!(attempt.next_step(), AcquireStep::Finished) {
        attempt.advance(Ok(()));
    }
    complete_start(&mut svc, rpc, attempt);
    let _ = receive_from_ble_module(rpc);
    svc
}

fn identity_char() -> RemoteCharacteristic {
    RemoteCharacteristic {
        service_uuid: MAIN_SERVICE_UUID,
        uuid: READ_CHAR_UUID,
        read: true,
        notify: false,
        indicate: false,
    }
}

fn kept_id(action: LoopAction) -> u64 {
    match action {
        LoopAction::KeepStream { id } => id,
        other => panic!("unexpected {:?}", other),
    }
}

#[test]
fn discovered_peer_is_connected_and_announced() {
    let mut rpc = init();
    let mut svc = running(&mut rpc);
    let evt = LoopEvent::DeviceDiscovered {
        peer: A,
        uuids: vec![MAIN_SERVICE_UUID],
        connected: false,
    };
    match handle_loop_event(&mut svc, &mut rpc, evt) {
        LoopAction::Connect { peer } => assert_eq!(peer, A),
        other => panic!("unexpected {:?}", other),
    }
    let evt = LoopEvent::PeerEnumerated { peer: A, characteristics: vec![identity_char()] };
    match handle_loop_event(&mut svc, &mut rpc, evt) {
        LoopAction::SetUpPeer { peer, steps } => {
            assert_eq!(peer, A);
            assert_eq!(steps, vec![PeerStep { index: 0, kind: PeerStepKind::ReadIdentity }]);
        }
        other => panic!("unexpected {:?}", other),
    }
    let evt = LoopEvent::IdentityRead { peer: A, qaul_id: b"peer-a".to_vec(), rssi: Some(-42) };
    assert!(matches!(handle_loop_event(&mut svc, &mut rpc, evt), LoopAction::Nothing));
    match receive_from_ble_module(&mut rpc) {
        Ok(BleMessage::DeviceDiscovered(d)) => {
            assert_eq!(d.qaul_id, b"peer-a".to_vec());
            assert_eq!(d.rssi, -42);
        }
        other => panic!("unexpected {:?}", other),
    }
}

#[test]
fn blocked_peer_is_neither_connected_nor_announced() {
    let mut rpc = init();
    let mut svc = running(&mut rpc);
    svc.block_device(A);
    let evt = LoopEvent::DeviceDiscovered {
        peer: A,
        uuids: vec![MAIN_SERVICE_UUID],
        connected: false,
    };
    assert!(matches!(handle_loop_event(&mut svc, &mut rpc, evt), LoopAction::Nothing));
    let evt = LoopEvent::PeerEnumerated { peer: A, characteristics: vec![identity_char()] };
    assert!(matches!(handle_loop_event(&mut svc, &mut rpc, evt), LoopAction::Nothing));
    let evt = LoopEvent::IdentityRead { peer: A, qaul_id: b"peer-a".to_vec(), rssi: Some(-42) };
    handle_loop_event(&mut svc, &mut rpc, evt);
    assert_eq!(queue_length_ble_to_ui(&rpc), 0);
}

#[test]
fn unblocked_peer_is_considered_again() {
    let mut rpc = init();
    let mut svc = running(&mut rpc);
    svc.block_device(A);
    svc.block_device(B);
    assert!(svc.is_blocked(&A));
    svc.unblock_device(&A);
    assert!(!svc.is_blocked(&A));
    assert!(svc.is_blocked(&B));
    let uuids = vec![MAIN_SERVICE_UUID];
    assert_eq!(svc.on_device_discovered(&A, &uuids, true), DiscoveryAction::Enumerate);
    assert_eq!(svc.on_device_discovered(&B, &uuids, true), DiscoveryAction::Ignore);
}

#[test]
fn device_without_main_service_is_ignored() {
    let mut rpc = init();
    let svc = running(&mut rpc);
    let uuids = vec![MSG_SERVICE_UUID, 42];
    assert_eq!(svc.on_device_discovered(&A, &uuids, false), DiscoveryAction::Ignore);
    assert_eq!(svc.on_device_discovered(&A, &vec![], false), DiscoveryAction::Ignore);
}

#[test]
fn discovery_needs_a_running_service() {
    let svc = BleService::new();
    let uuids = vec![MAIN_SERVICE_UUID];
    assert_eq!(svc.on_device_discovered(&A, &uuids, false), DiscoveryAction::Ignore);
    assert!(svc.on_identity_read(&A, vec![1], Some(-1)).is_none());
}

#[test]
fn missing_rssi_reports_sentinel() {
    let mut rpc = init();
    let svc = running(&mut rpc);
    let d = svc.on_identity_read(&B, vec![7, 7], None).expect("announced");
    assert_eq!(d.rssi, RSSI_UNKNOWN);
    assert_eq!(d.rssi, 999);
    assert_eq!(d.qaul_id, vec![7, 7]);
}

#[test]
fn peer_setup_subscribes_and_reads_main_service_only() {
    let mut rpc = init();
    let svc = running(&mut rpc);
    let chars = vec![
        RemoteCharacteristic {
            service_uuid: MSG_SERVICE_UUID,
            uuid: MSG_CHAR_UUID,
            read: true,
            notify: true,
            indicate: false,
        },
        RemoteCharacteristic {
            service_uuid: MAIN_SERVICE_UUID,
            uuid: 5,
            read: false,
            notify: false,
            indicate: true,
        },
        identity_char(),
        RemoteCharacteristic {
            service_uuid: MAIN_SERVICE_UUID,
            uuid: 6,
            read: true,
            notify: false,
            indicate: false,
        },
    ];
    let steps = svc.plan_peer_setup(&C, &chars);
    assert_eq!(
        steps,
        vec![
            PeerStep { index: 1, kind: PeerStepKind::Subscribe },
            PeerStep { index: 2, kind: PeerStepKind::ReadIdentity },
        ]
    );
}

#[test]
fn concurrent_writers_are_reported_in_completion_order() {
    let mut rpc = init();
    let mut svc = running(&mut rpc);
    let b = kept_id(handle_loop_event(&mut svc, &mut rpc, LoopEvent::WriteAccepted { peer: B }));
    let c = kept_id(handle_loop_event(&mut svc, &mut rpc, LoopEvent::WriteAccepted { peer: C }));
    assert_ne!(b, c);
    let evt = LoopEvent::MessageReceived { receiver: c, data: b"from c".to_vec() };
    handle_loop_event(&mut svc, &mut rpc, evt);
    let evt = LoopEvent::MessageReceived { receiver: b, data: b"from b".to_vec() };
    handle_loop_event(&mut svc, &mut rpc, evt);
    match receive_from_ble_module(&mut rpc) {
        Ok(BleMessage::DirectReceived(m)) => {
            assert_eq!(m.from, C.octets.to_vec());
            assert_eq!(m.data, b"from c".to_vec());
        }
        other => panic!("unexpected {:?}", other),
    }
    match receive_from_ble_module(&mut rpc) {
        Ok(BleMessage::DirectReceived(m)) => {
            assert_eq!(m.from, B.octets.to_vec());
            assert_eq!(m.data, b"from b".to_vec());
        }
        other => panic!("unexpected {:?}", other),
    }
}

#[test]
fn payload_is_passed_on_byte_for_byte() {
    let mut rpc = init();
    let mut svc = running(&mut rpc);
    let id = svc.on_subscribed(A).expect("registered");
    let payload: Vec<u8> = (0..=255).collect();
    let m = svc.on_message(id, payload.clone()).expect("known receiver");
    assert_eq!(m.data, payload);
    assert_eq!(m.from, vec![0xAA, 0x01, 0x02, 0x03, 0x04, 0x05]);
}

#[test]
fn closed_receiver_is_pruned() {
    let mut rpc = init();
    let mut svc = running(&mut rpc);
    let id = kept_id(handle_loop_event(&mut svc, &mut rpc, LoopEvent::PeerSubscribed { peer: B }));
    handle_loop_event(&mut svc, &mut rpc, LoopEvent::StreamClosed { id });
    let evt = LoopEvent::MessageReceived { receiver: id, data: vec![1] };
    handle_loop_event(&mut svc, &mut rpc, evt);
    assert_eq!(queue_length_ble_to_ui(&rpc), 0);
}

#[test]
fn unknown_receiver_reports_nothing() {
    let mut rpc = init();
    let svc = running(&mut rpc);
    assert!(svc.on_message(12345, vec![1, 2]).is_none());
}

#[test]
fn stop_closes_every_stream() {
    let mut rpc = init();
    let mut svc = running(&mut rpc);
    let b = svc.on_subscribed(B).expect("registered");
    let c = svc.on_subscribed(C).expect("registered");
    let n = svc.on_notify_subscribed(A).expect("recorded");
    let t = svc.stop();
    assert_eq!(t.close_receivers, vec![b, c]);
    assert_eq!(t.close_notify_paths, vec![n]);
    assert!(svc.on_message(b, vec![1]).is_none());
}

#[test]
fn events_after_stop_do_nothing() {
    let mut rpc = init();
    let mut svc = running(&mut rpc);
    let id = svc.on_subscribed(B).expect("registered");
    svc.stop();
    let evt = LoopEvent::MessageReceived { receiver: id, data: vec![9] };
    assert!(matches!(handle_loop_event(&mut svc, &mut rpc, evt), LoopAction::Nothing));
    let evt = LoopEvent::WriteAccepted { peer: C };
    assert!(matches!(handle_loop_event(&mut svc, &mut rpc, evt), LoopAction::DropStream));
    assert_eq!(queue_length_ble_to_ui(&rpc), 0);
}

#[test]
fn direct_send_prefers_notify_path() {
    let mut rpc = init();
    let mut svc = running(&mut rpc);
    let path = kept_id(handle_loop_event(&mut svc, &mut rpc, LoopEvent::NotifySubscribed { peer: B }));
    let to = B.octets.to_vec();
    match svc.send_direct(&to, vec![1, 2, 3]) {
        Ok(SendPath::Notify { path: p, data }) => {
            assert_eq!(p, path);
            assert_eq!(data, vec![1, 2, 3]);
        }
        other => panic!("unexpected {:?}", other),
    }
    match svc.send_direct(&C.octets.to_vec(), vec![4]) {
        Ok(SendPath::Write { peer, data }) => {
            assert_eq!(peer, C);
            assert_eq!(data, vec![4]);
        }
        other => panic!("unexpected {:?}", other),
    }
}

#[test]
fn direct_send_errors() {
    let mut rpc = init();
    let idle = BleService::new();
    assert_eq!(idle.send_direct(&A.octets.to_vec(), vec![1]).unwrap_err(), SendError::NotRunning);
    let svc = running(&mut rpc);
    assert_eq!(svc.send_direct(&vec![1, 2, 3], vec![1]).unwrap_err(), SendError::InvalidAddress);
}

#[test]
fn direct_send_request_through_bridge() {
    let mut rpc = init();
    let mut svc = running(&mut rpc);
    let req = ble_module::BleDirectSend { to: C.octets.to_vec(), data: vec![5, 6] };
    match dispatch_request(&mut svc, &mut rpc, Some(BleMessage::DirectSend(req))) {
        BridgeAction::Send(SendPath::Write { peer, data }) => {
            assert_eq!(peer, C);
            assert_eq!(data, vec![5, 6]);
        }
        _ => panic!("expected a write"),
    }
    let bad = ble_module::BleDirectSend { to: vec![1], data: vec![5] };
    let action = dispatch_request(&mut svc, &mut rpc, Some(BleMessage::DirectSend(bad)));
    assert!(matches!(action, BridgeAction::Nothing));
}

#[test]
fn address_round_trip() {
    let a = Address::from_bytes(&[1, 2, 3, 4, 5, 6]).expect("six bytes");
    assert_eq!(a.octets, [1, 2, 3, 4, 5, 6]);
    assert_eq!(a.to_bytes(), vec![1, 2, 3, 4, 5, 6]);
    assert!(Address::from_bytes(&[1, 2, 3]).is_none());
    assert!(a.same(&a));
    assert!(!A.same(&B));
}

#[test]
fn direct_write_goes_to_message_characteristic() {
    let other = RemoteCharacteristic {
        service_uuid: MSG_SERVICE_UUID,
        uuid: 77,
        read: false,
        notify: false,
        indicate: false,
    };
    let msg = RemoteCharacteristic {
        service_uuid: MSG_SERVICE_UUID,
        uuid: MSG_CHAR_UUID,
        read: false,
        notify: false,
        indicate: false,
    };
    assert_eq!(message_characteristic(&vec![identity_char(), other, msg, msg]), Some(2));
    assert_eq!(message_characteristic(&vec![identity_char(), other]), None);
}
