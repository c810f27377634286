//! Tests for the stream reader's poll decision logic.

use f1_telemetry::packet::{Packet, UnpackError};
use f1_telemetry::stream::{poll_step, PollOutcome, SocketEvent};

fn header_bytes(packet_id: u8) -> Vec<u8> {
    let mut v: Vec<u8> = Vec::new();
    v.extend_from_slice(&2019u16.to_le_bytes());
    v.push(1);
    v.push(22);
    v.push(packet_id);
    v.extend_from_slice(&99u64.to_le_bytes());
    v.extend_from_slice(&1.0f32.to_le_bytes());
    v.extend_from_slice(&7u32.to_le_bytes());
    v.push(0);
    v.push(255);
    v
}

fn motion_datagram() -> Vec<u8> {
    let mut v = header_bytes(0);
    v.extend_from_slice(&[0u8; 1320]);
    v
}

fn event_datagram() -> Vec<u8> {
    let mut v = header_bytes(3);
    v.extend_from_slice(b"FTLP");
    v
}

#[test]
fn no_pending_datagram_is_not_an_error() {
    assert_eq!(poll_step(SocketEvent::NoData), PollOutcome::NoData);
}

#[test]
fn consecutive_datagrams_of_different_types_each_decode() {
    let first = poll_step(SocketEvent::Datagram(motion_datagram()));
    match first {
        PollOutcome::Received(Packet::Motion(m)) => {
            assert_eq!(m.motion_data.len(), 20);
        }
        other => panic!("expected a motion packet, got {:?}", other),
    }
    let second = poll_step(SocketEvent::Datagram(event_datagram()));
    match second {
        PollOutcome::Received(Packet::Event(ev)) => {
            assert_eq!(ev.event_code, b"FTLP".to_vec());
        }
        other => panic!("expected an event packet, got {:?}", other),
    }
}

#[test]
fn malformed_datagram_fails_without_poisoning_the_next() {
    let bad = poll_step(SocketEvent::Datagram(vec![1, 2, 3]));
    assert_eq!(bad, PollOutcome::DecodeFailed(UnpackError::TruncatedData));
    let good = poll_step(SocketEvent::Datagram(event_datagram()));
    assert!(matches!(good, PollOutcome::Received(Packet::Event(_))));
}

#[test]
fn socket_failure_is_passed_through() {
    assert_eq!(poll_step(SocketEvent::ReadFailed), PollOutcome::SocketFailed);
}
