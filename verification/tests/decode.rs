//! End-to-end decoding tests over concrete byte buffers.

use f1_telemetry::cursor::ByteCursor;
use f1_telemetry::packet::event::PacketEventData;
use f1_telemetry::packet::generic::read_wheel_quad;
use f1_telemetry::packet::header::PacketHeader;
use f1_telemetry::packet::motion::PacketMotionData;
use f1_telemetry::packet::{parse_packet, Packet, UnpackError};

fn header_bytes(
    format: u16,
    major: u8,
    minor: u8,
    packet_id: u8,
    uid: u64,
    time: f32,
    frame: u32,
    player: u8,
    secondary: u8,
) -> Vec<u8> {
    let mut v: Vec<u8> = Vec::new();
    v.extend_from_slice(&format.to_le_bytes());
    v.push(major);
    v.push(minor);
    v.push(packet_id);
    v.extend_from_slice(&uid.to_le_bytes());
    v.extend_from_slice(&time.to_le_bytes());
    v.extend_from_slice(&frame.to_le_bytes());
    v.push(player);
    v.push(secondary);
    v
}

fn motion_packet_bytes() -> Vec<u8> {
    let mut v = header_bytes(2019, 1, 22, 0, 0x1122334455667788, 12.5, 1000, 0, 255);
    for car in 0..20u32 {
        for f in 0..6u32 {
            v.extend_from_slice(&((car * 10 + f) as f32).to_le_bytes());
        }
        for i in 0..6u32 {
            v.extend_from_slice(&((car * 100 + i) as i16).to_le_bytes());
        }
        for f in 0..6u32 {
            v.extend_from_slice(&((car * 10 + f) as f32 * -1.0).to_le_bytes());
        }
    }
    for q in 0..5u32 {
        for w in 0..4u32 {
            v.extend_from_slice(&((q * 4 + w) as f32 + 0.5).to_le_bytes());
        }
    }
    for x in 0..10u32 {
        v.extend_from_slice(&((100 + x) as f32).to_le_bytes());
    }
    v
}

fn event_packet_bytes() -> Vec<u8> {
    let mut v = header_bytes(2019, 1, 22, 3, 7, 0.25, 55, 1, 255);
    v.extend_from_slice(b"SSTA");
    v
}

#[test]
fn header_fields_decode_in_wire_order() {
    let bytes = header_bytes(2019, 1, 22, 0, 0x1122334455667788, 12.5, 1000, 19, 255);
    let mut cursor = ByteCursor::new(bytes);
    let h = PacketHeader::new(&mut cursor).unwrap();
    assert_eq!(h.packet_format, 2019);
    assert_eq!(h.game_major_version, 1);
    assert_eq!(h.game_minor_version, 22);
    assert_eq!(h.packet_id, 0);
    assert_eq!(h.session_uid, 0x1122334455667788);
    assert_eq!(h.session_time, 12.5f32.to_bits());
    assert_eq!(h.frame_identifier, 1000);
    assert_eq!(h.player_car_index, 19);
    assert_eq!(h.secondary_player_car_index, 255);
    assert_eq!(cursor.remaining_len(), 0);
}

#[test]
fn header_round_trip_reproduces_bytes() {
    let bytes = header_bytes(2019, 1, 22, 3, 0xdeadbeef00aa55cc, -1.5, 42, 2, 255);
    let mut cursor = ByteCursor::new(bytes.clone());
    let h = PacketHeader::new(&mut cursor).unwrap();
    assert_eq!(h.encode(), bytes);
}

#[test]
fn short_header_is_truncated_data() {
    let bytes = header_bytes(2019, 1, 22, 0, 1, 0.0, 1, 0, 255);
    let r = parse_packet(10, &bytes);
    assert_eq!(r, Err(UnpackError::TruncatedData));
}

#[test]
fn unsupported_format_version_is_reported() {
    let bytes = header_bytes(2020, 1, 22, 0, 1, 0.0, 1, 0, 255);
    let r = parse_packet(bytes.len(), &bytes);
    assert_eq!(r, Err(UnpackError::UnsupportedFormatVersion(2020)));
}

#[test]
fn short_motion_payload_is_truncated_data() {
    let bytes = motion_packet_bytes();
    let r = parse_packet(500, &bytes);
    assert_eq!(r, Err(UnpackError::TruncatedData));
}

#[test]
fn short_event_payload_is_truncated_data() {
    let bytes = event_packet_bytes();
    let r = parse_packet(25, &bytes);
    assert_eq!(r, Err(UnpackError::TruncatedData));
}

#[test]
fn trailing_bytes_are_an_error() {
    let mut bytes = motion_packet_bytes();
    bytes.push(0);
    let r = parse_packet(bytes.len(), &bytes);
    assert_eq!(r, Err(UnpackError::TrailingData));

    let mut ev = event_packet_bytes();
    ev.push(0);
    let r2 = parse_packet(ev.len(), &ev);
    assert_eq!(r2, Err(UnpackError::TrailingData));
}

#[test]
fn unknown_packet_type_is_recoverable() {
    let bytes = header_bytes(2019, 1, 22, 9, 1, 0.0, 1, 0, 255);
    let r = parse_packet(bytes.len(), &bytes);
    assert_eq!(r, Err(UnpackError::UnknownPacketType(9)));

    // The failure leaves nothing behind: the next datagram still decodes.
    let good = event_packet_bytes();
    let r2 = parse_packet(good.len(), &good);
    assert!(matches!(r2, Ok(Packet::Event(_))));
}

#[test]
fn wheel_quad_preserves_canonical_order() {
    let mut bytes: Vec<u8> = Vec::new();
    for v in [1.0f32, 2.0, 3.0, 4.0] {
        bytes.extend_from_slice(&v.to_le_bytes());
    }
    let mut cursor = ByteCursor::new(bytes);
    let quad = read_wheel_quad(&mut cursor).unwrap();
    assert_eq!(quad.rear_left, 1.0f32.to_bits());
    assert_eq!(quad.rear_right, 2.0f32.to_bits());
    assert_eq!(quad.front_left, 3.0f32.to_bits());
    assert_eq!(quad.front_right, 4.0f32.to_bits());
}

#[test]
fn motion_packet_scenario() {
    let bytes = motion_packet_bytes();
    assert_eq!(bytes.len(), 1343);
    let p = parse_packet(bytes.len(), &bytes).unwrap();
    let m = match p {
        Packet::Motion(m) => m,
        _ => panic!("expected a motion packet"),
    };
    assert_eq!(m.header.packet_id, 0);
    assert_eq!(m.motion_data.len(), 20);
    // Records stand in car-index order and floats survive bit-for-bit.
    for car in 0..20u32 {
        let rec = &m.motion_data[car as usize];
        assert_eq!(rec.world_position_x, ((car * 10) as f32).to_bits());
        assert_eq!(rec.world_velocity_z, ((car * 10 + 5) as f32).to_bits());
        assert_eq!(rec.world_forward_dir_x, (car * 100) as i16);
        assert_eq!(rec.world_right_dir_z, (car * 100 + 5) as i16);
        assert_eq!(rec.g_force_lateral, ((car * 10) as f32 * -1.0).to_bits());
        assert_eq!(rec.roll, ((car * 10 + 5) as f32 * -1.0).to_bits());
    }
    // Player-car extras, in wire order.
    assert_eq!(m.suspension_position.rear_left, 0.5f32.to_bits());
    assert_eq!(m.suspension_position.front_right, 3.5f32.to_bits());
    assert_eq!(m.suspension_velocity.rear_left, 4.5f32.to_bits());
    assert_eq!(m.suspension_acceleration.rear_right, 9.5f32.to_bits());
    assert_eq!(m.wheel_speed.front_left, 14.5f32.to_bits());
    assert_eq!(m.wheel_slip.front_right, 19.5f32.to_bits());
    assert_eq!(m.local_velocity_x, 100.0f32.to_bits());
    assert_eq!(m.local_velocity_y, 101.0f32.to_bits());
    assert_eq!(m.local_velocity_z, 102.0f32.to_bits());
    assert_eq!(m.angular_velocity_x, 103.0f32.to_bits());
    assert_eq!(m.angular_velocity_y, 104.0f32.to_bits());
    assert_eq!(m.angular_velocity_z, 105.0f32.to_bits());
    assert_eq!(m.angular_acceleration_x, 106.0f32.to_bits());
    assert_eq!(m.angular_acceleration_y, 107.0f32.to_bits());
    assert_eq!(m.angular_acceleration_z, 108.0f32.to_bits());
    assert_eq!(m.front_wheels_angle, 109.0f32.to_bits());
}

#[test]
fn event_packet_keeps_code_verbatim() {
    let bytes = event_packet_bytes();
    assert_eq!(bytes.len(), 27);
    let p = parse_packet(bytes.len(), &bytes).unwrap();
    let ev = match p {
        Packet::Event(ev) => ev,
        _ => panic!("expected an event packet"),
    };
    assert_eq!(ev.header.packet_id, 3);
    assert_eq!(ev.event_code, b"SSTA".to_vec());
}

#[test]
fn decoding_twice_yields_value_equal_packets() {
    let bytes = motion_packet_bytes();
    let p1 = parse_packet(bytes.len(), &bytes).unwrap();
    let p2 = parse_packet(bytes.len(), &bytes).unwrap();
    assert_eq!(p1, p2);
    let ev_bytes = event_packet_bytes();
    let e1 = parse_packet(ev_bytes.len(), &ev_bytes).unwrap();
    let e2 = parse_packet(ev_bytes.len(), &ev_bytes).unwrap();
    assert_eq!(e1, e2);
}

#[test]
fn payload_decoders_reject_short_buffers_directly() {
    let mut cursor = ByteCursor::new(vec![0u8; 100]);
    let header_src = header_bytes(2019, 1, 22, 0, 1, 0.0, 1, 0, 255);
    let mut hc = ByteCursor::new(header_src);
    let h = PacketHeader::new(&mut hc).unwrap();
    assert_eq!(
        PacketMotionData::new(&mut cursor, h),
        Err(UnpackError::TruncatedData)
    );
    let mut short = ByteCursor::new(vec![0u8; 3]);
    assert_eq!(
        PacketEventData::new(&mut short, h),
        Err(UnpackError::TruncatedData)
    );
}
