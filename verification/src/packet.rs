//! Typed packets and the dispatcher that selects a decoder by packet type.

use vstd::prelude::*;
use vstd::slice::{slice_subrange, slice_to_vec};

use crate::bytes::le_u16_at;
use crate::cursor::ByteCursor;
use crate::packet::event::{spec_event_packet_matches, PacketEventData, EVENT_PAYLOAD_SIZE};
use crate::packet::header::{
    spec_header_at, PacketHeader, HEADER_SIZE, PACKET_FORMAT_2019,
};
use crate::packet::motion::{
    spec_motion_packet_matches, PacketMotionData, MOTION_PAYLOAD_SIZE,
};

pub mod event;
pub mod generic;
pub mod header;
pub mod motion;

verus! {

/// Packet-type identifier of the motion packet.
pub const PACKET_ID_MOTION: u8 = 0;

/// Packet-type identifier of the event packet.
pub const PACKET_ID_EVENT: u8 = 3;

/// Total wire size of one motion packet.
pub const MOTION_PACKET_SIZE: usize = HEADER_SIZE + MOTION_PAYLOAD_SIZE;

/// Total wire size of one event packet.
pub const EVENT_PACKET_SIZE: usize = HEADER_SIZE + EVENT_PAYLOAD_SIZE;

/// Why one datagram could not be decoded.  Every failure is local to the
/// datagram that caused it: the caller discards the datagram and keeps
/// polling.
#[derive(Debug, Clone, Copy, PartialEq, Eq, Structural)]
pub enum UnpackError {
    /// Fewer bytes remained than a field or record requires.
    TruncatedData,
    /// The header declares a format version with no known field layout;
    /// carries the declared version.
    UnsupportedFormatVersion(u16),
    /// The header's packet-type identifier has no registered decoder;
    /// carries the identifier.
    UnknownPacketType(u8),
    /// The datagram holds more bytes than the declared packet type and
    /// version occupy; a decoded packet must account for the whole
    /// datagram, so trailing bytes are an error, not a silent success.
    TrailingData,
}

/// One fully decoded datagram: a tagged union over all supported packet
/// kinds, each variant owning its header and kind-specific fields.
#[derive(Debug, Clone, PartialEq)]
pub enum Packet {
    Motion(PacketMotionData),
    Event(PacketEventData),
}

/// Holds exactly when the datagram `s` decodes successfully: it carries
/// a full header in the only supported format version, its packet-type
/// identifier is registered, and its length is exactly the wire size of
/// that packet type.
pub open spec fn spec_parse_ok(s: Seq<u8>) -> bool {
    &&& s.len() >= HEADER_SIZE
    &&& le_u16_at(s, 0) == PACKET_FORMAT_2019
    &&& {
        let h = spec_header_at(s, 0);
        ||| h.packet_id == PACKET_ID_MOTION && s.len() == MOTION_PACKET_SIZE
        ||| h.packet_id == PACKET_ID_EVENT && s.len() == EVENT_PACKET_SIZE
    }
}

/// The error a failing decode of `s` reports, by the order in which the
/// decoding layer discovers faults: a short header first, then an
/// unsupported format version, then an unknown packet type, then a
/// payload that is shorter or longer than the packet type's wire size.
pub open spec fn spec_parse_err(s: Seq<u8>) -> UnpackError
    recommends
        !spec_parse_ok(s),
{
    if s.len() < HEADER_SIZE {
        UnpackError::TruncatedData
    } else if le_u16_at(s, 0) != PACKET_FORMAT_2019 {
        UnpackError::UnsupportedFormatVersion(le_u16_at(s, 0))
    } else {
        let h = spec_header_at(s, 0);
        if h.packet_id == PACKET_ID_MOTION {
            if s.len() < MOTION_PACKET_SIZE {
                UnpackError::TruncatedData
            } else {
                UnpackError::TrailingData
            }
        } else if h.packet_id == PACKET_ID_EVENT {
            if s.len() < EVENT_PACKET_SIZE {
                UnpackError::TruncatedData
            } else {
                UnpackError::TrailingData
            }
        } else {
            UnpackError::UnknownPacketType(h.packet_id)
        }
    }
}

/// Holds exactly when `p` is the packet that the datagram `s` decodes
/// to: the variant matches the header's packet-type identifier and every
/// field of `p` is the value stored at its wire offset.
pub open spec fn spec_packet_matches(p: Packet, s: Seq<u8>) -> bool {
    let h = spec_header_at(s, 0);
    match p {
        Packet::Motion(m) => h.packet_id == PACKET_ID_MOTION && spec_motion_packet_matches(
            m,
            s,
            HEADER_SIZE as int,
            h,
        ),
        Packet::Event(e) => h.packet_id == PACKET_ID_EVENT && spec_event_packet_matches(
            e,
            s,
            HEADER_SIZE as int,
            h,
        ),
    }
}

/// Holds when `p1` and `p2` carry the same variant and the same field
/// values: the same header, the same per-car records in the same order,
/// and the same extras.
pub open spec fn spec_packets_value_equal(p1: Packet, p2: Packet) -> bool {
    match (p1, p2) {
        (Packet::Motion(a), Packet::Motion(b)) => {
            &&& a.header == b.header
            &&& a.motion_data@ == b.motion_data@
            &&& a.suspension_position == b.suspension_position
            &&& a.suspension_velocity == b.suspension_velocity
            &&& a.suspension_acceleration == b.suspension_acceleration
            &&& a.wheel_speed == b.wheel_speed
            &&& a.wheel_slip == b.wheel_slip
            &&& a.local_velocity_x == b.local_velocity_x
            &&& a.local_velocity_y == b.local_velocity_y
            &&& a.local_velocity_z == b.local_velocity_z
            &&& a.angular_velocity_x == b.angular_velocity_x
            &&& a.angular_velocity_y == b.angular_velocity_y
            &&& a.angular_velocity_z == b.angular_velocity_z
            &&& a.angular_acceleration_x == b.angular_acceleration_x
            &&& a.angular_acceleration_y == b.angular_acceleration_y
            &&& a.angular_acceleration_z == b.angular_acceleration_z
            &&& a.front_wheels_angle == b.front_wheels_angle
        },
        (Packet::Event(a), Packet::Event(b)) => {
            &&& a.header == b.header
            &&& a.event_code@ == b.event_code@
        },
        _ => false,
    }
}

/// Law: decoding is a pure function of the datagram's bytes.  Any two
/// packets that match the same byte sequence are value-equal, so
/// decoding the same immutable buffer twice yields value-equal results.
pub proof fn lemma_decode_deterministic(p1: Packet, p2: Packet, s: Seq<u8>)
    requires
        spec_packet_matches(p1, s),
        spec_packet_matches(p2, s),
    ensures
        spec_packets_value_equal(p1, p2),
{
    match (p1, p2) {
        (Packet::Motion(a), Packet::Motion(b)) => {
            assert(a.motion_data@ =~= b.motion_data@);
        },
        (Packet::Event(a), Packet::Event(b)) => {
            assert(a.event_code@ =~= b.event_code@);
        },
        _ => {},
    }
}

/// Decodes the first `len` bytes of `buf` as one datagram: extracts the
/// common header, dispatches on its packet-type identifier to the
/// matching packet decoder, and requires the payload to account for the
/// whole datagram.
///
/// Succeeds exactly on the datagrams [`spec_parse_ok`] describes and
/// then returns the packet pinned down by [`spec_packet_matches`]; every
/// other datagram is rejected with the error [`spec_parse_err`] names.
/// Exactly one decoder is invoked per successfully dispatched datagram;
/// a failure never affects later calls, which depend on nothing but
/// their own arguments.
pub fn parse_packet(len: usize, buf: &[u8]) -> (r: Result<Packet, UnpackError>)
    requires
        len <= buf@.len(),
    ensures
        ({
            let s = buf@.subrange(0, len as int);
            match r {
                Ok(p) => spec_parse_ok(s) && spec_packet_matches(p, s),
                Err(e) => !spec_parse_ok(s) && e == spec_parse_err(s),
            }
        }),
{
    let datagram = slice_subrange(buf, 0, len);
    let data: Vec<u8> = slice_to_vec(datagram);
    let mut cursor = ByteCursor::new(data);
    let header = match PacketHeader::new(&mut cursor) {
        Ok(h) => h,
        Err(e) => {
            return Err(e);
        },
    };
    if header.packet_id == PACKET_ID_MOTION {
        let m = match PacketMotionData::new(&mut cursor, header) {
            Ok(m) => m,
            Err(e) => {
                return Err(e);
            },
        };
        if cursor.remaining_len() > 0 {
            return Err(UnpackError::TrailingData);
        }
        Ok(Packet::Motion(m))
    } else if header.packet_id == PACKET_ID_EVENT {
        let ev = match PacketEventData::new(&mut cursor, header) {
            Ok(ev) => ev,
            Err(e) => {
                return Err(e);
            },
        };
        if cursor.remaining_len() > 0 {
            return Err(UnpackError::TrailingData);
        }
        Ok(Packet::Event(ev))
    } else {
        Err(UnpackError::UnknownPacketType(header.packet_id))
    }
}

} // verus!
