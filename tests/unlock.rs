use thermoscope::action::DeviceAction;
use thermoscope::error::ThermalError;
use thermoscope::status::{is_handshake_ack, is_ready};
use thermoscope::unlock::{handshake_payload, stream_start_payload, UnlockState, MAX_POLLS};

#[test]
fn status_predicates_match_bit_arithmetic_for_every_byte() {
    for v in 0u16..256 {
        let s = v as u8;
        let bit0 = s & 1;
        let bit7 = (s >> 7) & 1;
        let bits2to7 = s & 0xfc;
        assert_eq!(is_handshake_ack(s), bit0 == 0 && (bit7 == 1 || bits2to7 != 0), "byte {}", s);
        assert_eq!(is_ready(s), bit0 == 0, "byte {}", s);
    }
}

#[test]
fn predicates_differ_on_idle_status() {
    assert!(!is_handshake_ack(0x00));
    assert!(is_ready(0x00));
    assert!(!is_handshake_ack(0x02));
    assert!(is_handshake_ack(0x04));
    assert!(is_handshake_ack(0x80));
    assert!(!is_handshake_ack(0x81));
    assert!(!is_ready(0x01));
}

#[test]
fn payloads_hold_magic_bytes() {
    assert_eq!(handshake_payload(), [0x05, 0x53, 0, 0, 0, 0, 0, 0]);
    assert_eq!(stream_start_payload(), [0x0a, 0x01, 0, 0, 0, 0, 0, 0]);
}

#[test]
fn unlock_sequence_succeeds() {
    let mut s = UnlockState::new();
    assert!(matches!(s.next_action(), DeviceAction::ClaimInterface { interface: 0 }));
    s = s.on_done(true);
    match s.next_action() {
        DeviceAction::VendorOut { request, value, index, payload } => {
            assert_eq!((request, value, index), (0x45, 0x78, 0x1d00));
            assert_eq!(payload, [0x05, 0x53, 0, 0, 0, 0, 0, 0]);
        }
        other => panic!("unexpected action {:?}", other),
    }
    s = s.on_done(true);
    assert!(matches!(
        s.next_action(),
        DeviceAction::ReadStatus { request: 0x44, value: 0x78, index: 0x0200 }
    ));
    s = s.on_status(Some(0x01));
    s = s.on_status(None);
    s = s.on_status(Some(0x00));
    assert_eq!(s, UnlockState::HandshakeSent { polls: 3 });
    s = s.on_status(Some(0x04));
    assert_eq!(s, UnlockState::HandshakeAcked);
    match s.next_action() {
        DeviceAction::VendorOut { payload, .. } => assert_eq!(payload, [0x0a, 0x01, 0, 0, 0, 0, 0, 0]),
        other => panic!("unexpected action {:?}", other),
    }
    s = s.on_done(true);
    s = s.on_status(Some(0x03));
    s = s.on_status(Some(0x02));
    assert_eq!(s, UnlockState::DeviceReady);
    assert!(s.is_terminal());
    assert!(matches!(s.next_action(), DeviceAction::Finished));
}

#[test]
fn claim_failure_is_fatal() {
    let s = UnlockState::new().on_done(false);
    assert_eq!(s, UnlockState::Failed { error: ThermalError::InterfaceClaimFailed });
    assert!(matches!(s.next_action(), DeviceAction::Abort { error: ThermalError::InterfaceClaimFailed }));
}

#[test]
fn handshake_send_failure_is_fatal() {
    let s = UnlockState::new().on_done(true).on_done(false);
    assert_eq!(s, UnlockState::Failed { error: ThermalError::TransportError });
}

#[test]
fn handshake_polling_times_out_after_limit() {
    let mut s = UnlockState::new().on_done(true).on_done(true);
    let mut polls = 0u32;
    while !s.is_terminal() {
        assert!(matches!(s.next_action(), DeviceAction::ReadStatus { .. }));
        s = s.on_status(if polls % 2 == 0 { None } else { Some(0x01) });
        polls += 1;
    }
    assert_eq!(polls, MAX_POLLS);
    assert_eq!(s, UnlockState::Failed { error: ThermalError::ProtocolTimeout });
}

#[test]
fn ready_polling_times_out_after_limit() {
    let mut s = UnlockState::new().on_done(true).on_done(true).on_status(Some(0x80)).on_done(true);
    let mut polls = 0u32;
    while !s.is_terminal() {
        s = s.on_status(Some(0xff));
        polls += 1;
    }
    assert_eq!(polls, 1000);
    assert_eq!(s, UnlockState::Failed { error: ThermalError::ProtocolTimeout });
    assert_eq!(s.on_status(Some(0x00)), s);
}

#[test]
fn error_messages_are_not_empty() {
    assert!(!ThermalError::ProtocolTimeout.message().is_empty());
    assert!(!ThermalError::TruncatedFrame.message().is_empty());
}
