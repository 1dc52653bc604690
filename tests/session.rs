use peer_relay::error::SessionError;
use peer_relay::latch::TerminationLatch;
use peer_relay::monitor::{
    ConnectionMonitor, ConnectionState, ShutdownCoordinator, ShutdownEvent, ShutdownReason,
};
use peer_relay::relay::{decode_payload, ChannelState, OutboundRelay};

#[test]
fn latch_fires_once() {
    let mut l = TerminationLatch::new();
    assert!(l.fire());
    assert!(!l.fire());
    assert!(l.fired);
}

#[test]
fn repeated_failure_signals_once() {
    for n in 1..6 {
        let mut m = ConnectionMonitor::new();
        let mut raised = 0;
        for _ in 0..n {
            if m.on_state_change(ConnectionState::Failed) {
                raised += 1;
            }
        }
        assert_eq!(raised, 1);
    }
}

#[test]
fn only_failed_raises_the_signal() {
    let mut m = ConnectionMonitor::new();
    let states = [
        ConnectionState::New,
        ConnectionState::Connecting,
        ConnectionState::Connected,
        ConnectionState::Disconnected,
        ConnectionState::Connected,
        ConnectionState::Closed,
    ];
    for s in states {
        assert!(!m.on_state_change(s));
    }
    assert!(m.on_state_change(ConnectionState::Failed));
    assert!(!m.on_state_change(ConnectionState::Connected));
    assert!(!m.on_state_change(ConnectionState::Failed));
}

#[test]
fn interrupt_first_wins() {
    let mut c = ShutdownCoordinator::new();
    assert!(c.on_event(ShutdownEvent::Interrupt));
    assert!(!c.on_event(ShutdownEvent::TerminationSignal));
    assert_eq!(c.reason, Some(ShutdownReason::Interrupted));
}

#[test]
fn termination_first_wins() {
    let mut c = ShutdownCoordinator::new();
    assert!(c.on_event(ShutdownEvent::TerminationSignal));
    assert!(!c.on_event(ShutdownEvent::Interrupt));
    assert!(!c.on_event(ShutdownEvent::TerminationSignal));
    assert_eq!(c.reason, Some(ShutdownReason::TransportFailure));
}

#[test]
fn relay_sends_lines_in_order() {
    let mut r = OutboundRelay::new();
    assert!(r.on_open());
    let mut sent = Vec::new();
    for l in ["L1", "L2", "L3"] {
        let m = r.next_send(Some(l.to_string())).unwrap();
        sent.push(m);
        r.on_send_result(true);
    }
    assert_eq!(sent, vec!["L1", "L2", "L3"]);
    assert_eq!(r.next_send(None), None);
    assert!(r.input_ended);
    assert_eq!(r.next_send(Some("L4".to_string())), None);
}

#[test]
fn relay_stops_after_failed_send() {
    let mut r = OutboundRelay::new();
    r.on_open();
    assert_eq!(r.next_send(Some("a".to_string())), Some("a".to_string()));
    r.on_send_result(false);
    assert_eq!(r.next_send(Some("b".to_string())), None);
}

#[test]
fn relay_waits_for_open_and_stops_on_close() {
    let mut r = OutboundRelay::new();
    assert_eq!(r.next_send(Some("early".to_string())), None);
    assert!(r.on_open());
    assert!(!r.on_open());
    r.on_close();
    assert_eq!(r.channel, ChannelState::Closed);
    assert_eq!(r.next_send(Some("late".to_string())), None);
}

#[test]
fn payload_utf8() {
    assert_eq!(decode_payload("h\u{e9}llo".as_bytes().to_vec()).unwrap(), "h\u{e9}llo");
    assert_eq!(decode_payload(vec![]).unwrap(), "");
    assert_eq!(decode_payload(vec![0x66, 0xff, 0x67]), Err(SessionError::NonUtf8Payload));
}
