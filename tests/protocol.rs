use portenta_h7::command::{decode_chunks, Action, Command, Target, COMMAND_SIZE};
use portenta_h7::enumeration::{edge, DeviceState, EnumerationEvent};
use portenta_h7::poll::{echo_reply, USB_MAX_PACKET_SIZE};

const STATES: [DeviceState; 4] = [
    DeviceState::Default,
    DeviceState::Addressed,
    DeviceState::Configured,
    DeviceState::Suspend,
];

#[test]
fn edge_complete_only_from_addressed_to_configured() {
    for p in STATES {
        for c in STATES {
            let expected = p == DeviceState::Addressed && c == DeviceState::Configured;
            assert_eq!(edge(p, c) == Some(EnumerationEvent::Complete), expected);
        }
    }
}

#[test]
fn edge_lost_whenever_configured_is_left() {
    for p in STATES {
        for c in STATES {
            let expected = p == DeviceState::Configured && c != DeviceState::Configured;
            assert_eq!(edge(p, c) == Some(EnumerationEvent::Lost), expected);
        }
    }
}

#[test]
fn edge_other_pairs_emit_nothing() {
    assert_eq!(edge(DeviceState::Configured, DeviceState::Configured), None);
    assert_eq!(edge(DeviceState::Default, DeviceState::Addressed), None);
    assert_eq!(edge(DeviceState::Default, DeviceState::Configured), None);
    assert_eq!(edge(DeviceState::Suspend, DeviceState::Configured), None);
    assert_eq!(edge(DeviceState::Addressed, DeviceState::Suspend), None);
    assert_eq!(edge(DeviceState::Configured, DeviceState::Suspend), Some(EnumerationEvent::Lost));
    assert_eq!(edge(DeviceState::Configured, DeviceState::Default), Some(EnumerationEvent::Lost));
}

#[test]
fn echo_returns_every_payload_unchanged() {
    for len in 1..=USB_MAX_PACKET_SIZE {
        let payload: Vec<u8> = (0..len).map(|i| (i * 7 + 3) as u8).collect();
        assert_eq!(echo_reply(&payload), Some(payload.clone()));
    }
}

#[test]
fn echo_of_empty_packet_is_nothing() {
    assert_eq!(echo_reply(&[]), None);
}

#[test]
fn decode_red_on() {
    assert_eq!(
        Command::decode(0xAA, 0x01),
        Some(Command { target: Target::Red, action: Action::On })
    );
}

#[test]
fn decode_green_off() {
    assert_eq!(
        Command::decode(0xBB, 0x02),
        Some(Command { target: Target::Green, action: Action::Off })
    );
}

#[test]
fn decode_unknown_target_is_dropped() {
    assert_eq!(Command::decode(0x00, 0x01), None);
}

#[test]
fn decode_unknown_action_is_dropped() {
    assert_eq!(Command::decode(0xCC, 0x03), None);
    assert_eq!(Command::decode(0xCC, 0x00), None);
    assert_eq!(
        Command::decode(0xCC, 0x02),
        Some(Command { target: Target::Blue, action: Action::Off })
    );
}

#[test]
fn target_and_action_bytes() {
    assert_eq!(Target::Red.as_u8(), 0xAA);
    assert_eq!(Target::Green.as_u8(), 0xBB);
    assert_eq!(Target::Blue.as_u8(), 0xCC);
    assert_eq!(Action::On.as_u8(), 0x01);
    assert_eq!(Action::Off.as_u8(), 0x02);
    assert_eq!(Target::from_u8(0xBB), Some(Target::Green));
    assert_eq!(Target::from_u8(0xAB), None);
    assert_eq!(Action::from_u8(0x02), Some(Action::Off));
    assert_eq!(Action::from_u8(0xFF), None);
}

#[test]
fn encode_then_decode_round_trips() {
    for target in [Target::Red, Target::Green, Target::Blue] {
        for action in [Action::On, Action::Off] {
            let c = Command { target, action };
            let bytes = c.encode();
            assert_eq!(bytes.len(), COMMAND_SIZE);
            assert_eq!(Command::decode(bytes[0], bytes[1]), Some(c));
        }
    }
    assert_eq!(Command { target: Target::Blue, action: Action::On }.encode(), [0xCC, 0x01]);
}

#[test]
fn five_bytes_give_two_attempts() {
    let packet = [0xAA, 0x01, 0x00, 0x01, 0xBB];
    let attempts = decode_chunks(&packet);
    assert_eq!(attempts.len(), 2);
    assert_eq!(attempts[0], Some(Command { target: Target::Red, action: Action::On }));
    assert_eq!(attempts[1], None);
}

#[test]
fn short_packets_give_no_attempt() {
    assert!(decode_chunks(&[]).is_empty());
    assert!(decode_chunks(&[0xAA]).is_empty());
}
