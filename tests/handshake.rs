use peer_relay::codec::{decode, encode, SdpKind, SessionDescription};
use peer_relay::error::SessionError;
use peer_relay::handshake::{Handshake, HandshakeAction, HandshakeEvent, HandshakePhase, Role};

fn offer() -> SessionDescription {
    SessionDescription { kind: SdpKind::Offer, sdp: "v=0\r\no=- 1 1 IN IP4 0.0.0.0\r\n".to_string() }
}

fn answer() -> SessionDescription {
    SessionDescription { kind: SdpKind::Answer, sdp: "v=0\r\no=- 2 1 IN IP4 0.0.0.0\r\n".to_string() }
}

#[test]
fn initiator_reaches_established_once() {
    let mut h = Handshake::new(Role::Initiator);
    assert!(matches!(h.step(HandshakeEvent::Start), HandshakeAction::PrepareOffer));
    let line = match h.step(HandshakeEvent::LocalReady(Some(offer()))) {
        HandshakeAction::Emit(line) => line,
        other => panic!("unexpected {:?}", other),
    };
    assert_eq!(h.phase, HandshakePhase::LocalDescriptionSet);
    assert_eq!(decode(&line).unwrap().kind, SdpKind::Offer);
    assert!(matches!(h.step(HandshakeEvent::Emitted), HandshakeAction::ReadPeerLine));
    assert_eq!(h.phase, HandshakePhase::AwaitingPeerDescription);
    let peer = encode(&answer()).unwrap();
    let mut applied = 0;
    match h.step(HandshakeEvent::PeerLine(Some(peer))) {
        HandshakeAction::ApplyRemote(d) => {
            applied += 1;
            assert_eq!(d.kind, SdpKind::Answer);
            assert_eq!(d.sdp, answer().sdp);
        }
        other => panic!("unexpected {:?}", other),
    }
    assert!(matches!(h.step(HandshakeEvent::RemoteApplied), HandshakeAction::Finish));
    assert!(h.is_established());
    assert!(h.local_set && h.remote_set && h.line_read);
    // Nothing after that reaches it again or asks for more work.
    assert!(matches!(h.step(HandshakeEvent::RemoteApplied), HandshakeAction::Ignore));
    assert!(matches!(
        h.step(HandshakeEvent::PeerLine(Some(encode(&answer()).unwrap()))),
        HandshakeAction::Ignore
    ));
    assert_eq!(applied, 1);
    assert!(h.is_established());
}

#[test]
fn responder_answers_after_one_line() {
    let mut h = Handshake::new(Role::Responder);
    assert!(matches!(h.step(HandshakeEvent::Start), HandshakeAction::ReadPeerLine));
    let peer = encode(&offer()).unwrap();
    match h.step(HandshakeEvent::PeerLine(Some(peer))) {
        HandshakeAction::ApplyRemoteAndAnswer(d) => {
            assert_eq!(d.kind, SdpKind::Offer);
            assert_eq!(d.sdp, offer().sdp);
        }
        other => panic!("unexpected {:?}", other),
    }
    assert_eq!(h.phase, HandshakePhase::PreparingLocal);
    let line = match h.step(HandshakeEvent::LocalReady(Some(answer()))) {
        HandshakeAction::Emit(line) => line,
        other => panic!("unexpected {:?}", other),
    };
    assert_eq!(decode(&line).unwrap().kind, SdpKind::Answer);
    assert!(matches!(h.step(HandshakeEvent::Emitted), HandshakeAction::Finish));
    assert!(h.is_established());
    // No further line is asked for during the handshake.
    assert!(matches!(h.step(HandshakeEvent::PeerLine(Some("x".to_string()))), HandshakeAction::Ignore));
}

#[test]
fn malformed_line_aborts_either_role() {
    for role in [Role::Initiator, Role::Responder] {
        let mut h = Handshake::new(role);
        h.step(HandshakeEvent::Start);
        if role == Role::Initiator {
            h.step(HandshakeEvent::LocalReady(Some(offer())));
            h.step(HandshakeEvent::Emitted);
        }
        assert_eq!(h.phase, HandshakePhase::AwaitingPeerDescription);
        let a = h.step(HandshakeEvent::PeerLine(Some("not a description".to_string())));
        assert!(matches!(a, HandshakeAction::Abort(SessionError::MalformedDescription)));
        assert_eq!(h.phase, HandshakePhase::Aborted);
        assert!(matches!(h.step(HandshakeEvent::RemoteApplied), HandshakeAction::Ignore));
        assert!(!h.is_established());
    }
}

#[test]
fn end_of_input_aborts() {
    let mut h = Handshake::new(Role::Responder);
    h.step(HandshakeEvent::Start);
    let a = h.step(HandshakeEvent::PeerLine(None));
    assert!(matches!(a, HandshakeAction::Abort(SessionError::MalformedDescription)));
    assert!(!h.is_established());
}

#[test]
fn missing_local_description_aborts() {
    let mut h = Handshake::new(Role::Initiator);
    h.step(HandshakeEvent::Start);
    let a = h.step(HandshakeEvent::LocalReady(None));
    assert!(matches!(a, HandshakeAction::Abort(SessionError::DescriptionUnavailable)));
    assert_eq!(h.phase, HandshakePhase::Aborted);
}

#[test]
fn out_of_order_events_are_ignored() {
    let mut h = Handshake::new(Role::Initiator);
    assert!(matches!(h.step(HandshakeEvent::Emitted), HandshakeAction::Ignore));
    assert!(matches!(h.step(HandshakeEvent::RemoteApplied), HandshakeAction::Ignore));
    assert_eq!(h.phase, HandshakePhase::Idle);
}
