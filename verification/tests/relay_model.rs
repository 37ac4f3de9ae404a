use blucher_bridge::pipeline::{inbound_step, on_command, outbound_step, InboundOutcome, OutboundStep};
use blucher_bridge::relay::{Relay, RecvResult, SendResult, RELAY_CAPACITY};

#[test]
fn backpressure_at_capacity() {
    let mut relay = Relay::new(RELAY_CAPACITY);
    assert!(matches!(relay.try_send("a".to_string()), SendResult::Sent));
    // The queue is full: the next send must wait and gets its item back.
    match relay.try_send("b".to_string()) {
        SendResult::WouldBlock(m) => assert_eq!(m, "b"),
        _ => panic!("a full relay must report WouldBlock"),
    }
    // One receive frees the slot; the waiting send now completes.
    match relay.try_recv() {
        RecvResult::Item(m) => assert_eq!(m, "a"),
        _ => panic!("a queued item must be delivered"),
    }
    assert!(matches!(relay.try_send("b".to_string()), SendResult::Sent));
    match relay.try_recv() {
        RecvResult::Item(m) => assert_eq!(m, "b"),
        _ => panic!("a queued item must be delivered"),
    }
}

#[test]
fn send_after_receiver_dropped_is_closed() {
    let mut relay = Relay::new(RELAY_CAPACITY);
    relay.drop_receiver();
    match relay.try_send("late".to_string()) {
        SendResult::Closed(m) => assert_eq!(m, "late"),
        _ => panic!("a closed relay must reject the send"),
    }
}

#[test]
fn fifo_order_is_kept() {
    let mut relay = Relay::new(2);
    assert!(matches!(relay.try_send("first".to_string()), SendResult::Sent));
    assert!(matches!(relay.try_send("second".to_string()), SendResult::Sent));
    match relay.try_recv() {
        RecvResult::Item(m) => assert_eq!(m, "first"),
        _ => panic!("oldest item first"),
    }
    match relay.try_recv() {
        RecvResult::Item(m) => assert_eq!(m, "second"),
        _ => panic!("newer item second"),
    }
    assert!(matches!(relay.try_recv(), RecvResult::Empty));
}

#[test]
fn queued_items_survive_sender_drop() {
    let mut relay = Relay::new(RELAY_CAPACITY);
    assert!(matches!(relay.try_send("kept".to_string()), SendResult::Sent));
    relay.drop_sender();
    match relay.try_recv() {
        RecvResult::Item(m) => assert_eq!(m, "kept"),
        _ => panic!("a buffered item outlives the sender"),
    }
    assert!(matches!(relay.try_recv(), RecvResult::Disconnected));
}

#[test]
fn on_command_forwards_ping_in_order() {
    let mut relay = Relay::new(RELAY_CAPACITY);
    // A prior invocation, drained first.
    assert_eq!(on_command(&mut relay, "first".to_string()), Ok(()));
    match outbound_step(&mut relay) {
        OutboundStep::Deliver(line) => assert_eq!(line, "Sent command first over socket"),
        _ => panic!("the queued command must be drained"),
    }
    // The invocation under observation: exactly one item comes out.
    assert_eq!(on_command(&mut relay, "ping".to_string()), Ok(()));
    assert_eq!(relay.queue_len(), 1);
    match outbound_step(&mut relay) {
        OutboundStep::Deliver(line) => assert_eq!(line, "Sent command ping over socket"),
        _ => panic!("the queued command must be drained"),
    }
    assert!(matches!(outbound_step(&mut relay), OutboundStep::Idle));
}

#[test]
fn on_command_reports_closed_channel() {
    let mut relay = Relay::new(RELAY_CAPACITY);
    relay.drop_receiver();
    assert_eq!(on_command(&mut relay, "ping".to_string()), Err("channel closed".to_string()));
}

#[test]
fn inbound_step_hands_back_item_when_full() {
    let mut relay = Relay::new(RELAY_CAPACITY);
    assert!(matches!(inbound_step(&mut relay, "a".to_string()), InboundOutcome::Accepted));
    match inbound_step(&mut relay, "b".to_string()) {
        InboundOutcome::MustWait(m) => assert_eq!(m, "b"),
        _ => panic!("a full relay must ask the caller to wait"),
    }
}

#[test]
fn outbound_step_shuts_down_on_closed_empty_relay() {
    let mut relay = Relay::new(RELAY_CAPACITY);
    relay.drop_sender();
    assert!(matches!(outbound_step(&mut relay), OutboundStep::Shutdown));
}
