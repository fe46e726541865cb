use remvora_agent::control::{
    session_kind, ControlError, ControlState, Policy, RebootStep, ReplyCode, SessionKind, SignalKind,
};

fn policy() -> Policy {
    Policy { allow_terminal: true, allow_desktop: false, allow_reboot: false, elevation_available: false }
}

#[test]
fn only_one_session_is_granted_at_a_time() {
    let mut s = ControlState::new();
    let first = s.request_session(1, SessionKind::Terminal, false, policy());
    assert!(first.accepted);
    assert_eq!(first.code.as_str(), "OK");
    let second = s.request_session(2, SessionKind::Terminal, false, policy());
    assert!(!second.accepted);
    assert_eq!(second.code, ReplyCode::SessionBusy);
    assert_eq!(second.code.as_str(), "SESSION_BUSY");
    assert!(!s.end_session(1));
    assert!(s.request_session(2, SessionKind::Terminal, false, policy()).accepted);
}

#[test]
fn capabilities_and_elevation_are_local_opt_ins() {
    let mut s = ControlState::new();
    let desktop = s.request_session(1, SessionKind::Desktop, false, policy());
    assert_eq!(desktop.code.as_str(), "CAPABILITY_UNAVAILABLE");
    let elevated = s.request_session(1, SessionKind::Terminal, true, policy());
    assert!(!elevated.accepted && elevated.elevation);
    assert_eq!(elevated.code.as_str(), "TERMINAL_ELEVATION_UNAVAILABLE");
    let other = s.request_session(1, SessionKind::Other, false, policy());
    assert_eq!(other.code, ReplyCode::CapabilityUnavailable);
}

#[test]
fn offers_and_relays_require_the_grant() {
    let mut s = ControlState::new();
    assert_eq!(s.authorize_offer(7), Err(ControlError::UnauthorizedOffer));
    assert_eq!(s.start_relay(7), Err(ControlError::UnauthorizedRelay));
    s.request_session(7, SessionKind::Terminal, false, policy());
    let grant = s.authorize_offer(7).unwrap();
    assert!(!grant.desktop);
    s.offer_answered(7);
    assert_eq!(s.authorize_offer(7), Err(ControlError::UnauthorizedOffer));
    assert!(s.accepts_candidate(7));
    let plan = s.start_relay(7).unwrap();
    assert!(plan.close_session);
    s.relay_started(7);
    assert!(!s.accepts_candidate(7));
    assert_eq!(s.start_relay(7), Err(ControlError::RelayAlreadyActive));
    assert_eq!(s.next_relay_sequence(7), Ok(Some(1)));
    assert_eq!(s.next_relay_sequence(7), Ok(Some(2)));
    assert_eq!(s.next_relay_sequence(8), Ok(None));
    s.relay_input_failed(7);
    assert!(!s.has_relay(7));
    assert_eq!(s.next_relay_sequence(7), Ok(None));
}

#[test]
fn reboot_commands_are_checked_and_never_replayed() {
    let mut s = ControlState::new();
    assert_eq!(s.reboot(1, false, true), Err(ControlError::InvalidCommandExpiry));
    assert_eq!(s.reboot(1, true, false), Ok(RebootStep::Denied));
    assert_eq!(s.reboot(1, true, true), Err(ControlError::CommandReplay));
    assert_eq!(s.reboot(2, true, true), Ok(RebootStep::Execute));
    for id in 3..=64u128 {
        assert!(s.reboot(id, true, true).is_ok());
    }
    assert_eq!(s.reboot(65, true, true), Err(ControlError::CommandReplay));
    assert!(ControlState::expiry_valid(Some(1)));
    assert!(ControlState::expiry_valid(Some(60_000_000_000)));
    assert!(!ControlState::expiry_valid(Some(60_000_000_001)));
    assert!(!ControlState::expiry_valid(Some(0)));
    assert!(!ControlState::expiry_valid(None));
}

#[test]
fn signals_are_classified_and_checked() {
    assert_eq!(ControlState::classify("agent.connected", false), Ok(SignalKind::Connected));
    assert_eq!(ControlState::classify("device.reboot", false), Ok(SignalKind::Reboot));
    assert_eq!(ControlState::classify("device.reboot", true), Err(ControlError::UnexpectedSignal));
    assert_eq!(ControlState::classify("relay.data", false), Err(ControlError::MissingSession));
    assert_eq!(ControlState::classify("relay.data", true), Ok(SignalKind::RelayData));
    assert_eq!(ControlState::classify("webrtc.iceCandidate", true), Ok(SignalKind::IceCandidate));
    assert_eq!(ControlState::classify("bogus", true), Err(ControlError::UnexpectedSignal));
    assert_eq!(ControlState::check_frame_size(65536), Ok(()));
    assert_eq!(ControlState::check_frame_size(65537), Err(ControlError::SignalTooLarge));
    assert_eq!(ControlState::check_signal(2, 0), Err(ControlError::UnsupportedProtocol));
    assert_eq!(ControlState::check_signal(1, 120), Ok(()));
    assert_eq!(ControlState::check_signal(1, -121), Err(ControlError::StaleSignal));
}

#[test]
fn session_kinds_are_read_exactly() {
    assert_eq!(session_kind("Terminal"), SessionKind::Terminal);
    assert_eq!(session_kind("Desktop"), SessionKind::Desktop);
    assert_eq!(session_kind("terminal"), SessionKind::Other);
    assert_eq!(session_kind(""), SessionKind::Other);
}
