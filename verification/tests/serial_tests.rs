use anne_key::protocol::Error;
use anne_key::serial::ReceiveOutcome;
use anne_key::serial::Serial;

#[test]
fn second_send_is_busy_and_changes_nothing() {
    let mut s = Serial::new();
    assert!(s.send(9, 2, &[1, 2, 3]).is_ok());
    let queued = s.queued_frame();
    assert_eq!(s.send(9, 2, &[9, 9]), Err(Error::LinkBusy));
    assert_eq!(s.queued_frame(), queued);
}

#[test]
fn send_queues_frame_of_matching_length() {
    let mut s = Serial::new();
    assert!(s.send(9, 6, &[0xca, 2, 5]).is_ok());
    let frame = s.queued_frame();
    assert_eq!(frame, vec![9, 4, 6, 0xca, 2, 5]);
}

#[test]
fn send_rejects_oversized_payload() {
    let mut s = Serial::new();
    let payload = vec![0u8; 253];
    assert_eq!(s.send(9, 6, &payload), Err(Error::PayloadTooLarge));
    assert!(s.queued_frame().is_empty());
    assert!(s.send(9, 6, &[1]).is_ok());
}

#[test]
fn busy_until_transmit_completes() {
    let mut s = Serial::new();
    assert!(s.send(9, 2, &[]).is_ok());
    // the wake handshake runs; the link stays busy throughout
    assert!(matches!(s.receive(true, &[6, 1]), ReceiveOutcome::AwaitingBody));
    assert_eq!(s.send(9, 2, &[]), Err(Error::LinkBusy));
    assert!(matches!(s.receive(true, &[170]), ReceiveOutcome::TransmitStarted));
    assert_eq!(s.send(9, 2, &[]), Err(Error::LinkBusy));
    s.tx_interrupt();
    assert!(s.send(9, 2, &[]).is_ok());
}

#[test]
fn poll_without_completion_is_noop() {
    let mut s = Serial::new();
    assert!(matches!(s.receive(false, &[]), ReceiveOutcome::Idle));
}

#[test]
fn received_frame_is_delivered_decoded() {
    let mut s = Serial::new();
    assert!(matches!(s.receive(true, &[7, 3]), ReceiveOutcome::AwaitingBody));
    match s.receive(true, &[42, 1, 2]) {
        ReceiveOutcome::Frame(m) => {
            assert_eq!(m.msg_type, 7);
            assert_eq!(m.operation, 42);
            assert_eq!(m.data, vec![1, 2]);
        }
        _ => panic!("expected a delivered frame"),
    }
}

#[test]
fn delivered_length_matches_declared_length() {
    let mut s = Serial::new();
    assert!(matches!(s.receive(true, &[9, 5]), ReceiveOutcome::AwaitingBody));
    match s.receive(true, &[1, 10, 20, 30, 40]) {
        ReceiveOutcome::Frame(m) => {
            // declared length 5: one opcode byte and four payload bytes
            assert_eq!(m.data.len(), 4);
            assert_eq!(m.data, vec![10, 20, 30, 40]);
        }
        _ => panic!("expected a delivered frame"),
    }
}

#[test]
fn wake_ack_is_suppressed_and_starts_transmit() {
    let mut s = Serial::new();
    assert!(s.send(9, 1, &[]).is_ok());
    assert!(matches!(s.receive(true, &[6, 1]), ReceiveOutcome::AwaitingBody));
    // kind 6, operation 170: consumed by the transport, not delivered
    assert!(matches!(s.receive(true, &[170]), ReceiveOutcome::TransmitStarted));
}

#[test]
fn ble_frame_with_other_operation_is_delivered() {
    let mut s = Serial::new();
    assert!(matches!(s.receive(true, &[6, 2]), ReceiveOutcome::AwaitingBody));
    match s.receive(true, &[7, 1]) {
        ReceiveOutcome::Frame(m) => {
            assert_eq!(m.msg_type, 6);
            assert_eq!(m.operation, 7);
            assert_eq!(m.data, vec![1]);
        }
        _ => panic!("expected a delivered frame"),
    }
}

#[test]
fn receiver_returns_to_header_stage_after_body() {
    let mut s = Serial::new();
    assert!(matches!(s.receive(true, &[7, 2]), ReceiveOutcome::AwaitingBody));
    assert!(matches!(s.receive(true, &[1, 2]), ReceiveOutcome::Frame(_)));
    // a fresh two-byte header transfer is armed again
    assert!(matches!(s.receive(true, &[7, 1]), ReceiveOutcome::AwaitingBody));
    assert!(matches!(s.receive(true, &[3]), ReceiveOutcome::Frame(_)));
}
