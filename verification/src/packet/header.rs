//! The fixed-size common header that prefixes every datagram.

use vstd::prelude::*;

use crate::bytes::{
    le_u16_at, le_u32_at, le_u64_at, lemma_u16_le_round_trip, lemma_u32_le_round_trip,
    lemma_u64_le_round_trip, u16_le_bytes, u32_le_bytes, u64_le_bytes,
};
use crate::cursor::ByteCursor;
use crate::packet::UnpackError;

verus! {

/// Width in bytes of the common header.
pub const HEADER_SIZE: usize = 23;

/// The only format version whose field layouts this decoder set knows.
pub const PACKET_FORMAT_2019: u16 = 2019;

/// The common header of one datagram.  It identifies which packet-type
/// decoder to invoke and in which session and frame the datagram was
/// produced.  Immutable once constructed.
///
/// `session_time` holds the raw little-endian bit pattern of the 32-bit
/// IEEE 754 session time, read verbatim.
#[derive(Debug, Clone, Copy, PartialEq, Eq, Structural)]
pub struct PacketHeader {
    pub packet_format: u16,
    pub game_major_version: u8,
    pub game_minor_version: u8,
    pub packet_id: u8,
    pub session_uid: u64,
    pub session_time: u32,
    pub frame_identifier: u32,
    pub player_car_index: u8,
    pub secondary_player_car_index: u8,
}

/// The header value stored at offset `i` of `s`.
pub open spec fn spec_header_at(s: Seq<u8>, i: int) -> PacketHeader
    recommends
        0 <= i,
        i + HEADER_SIZE <= s.len(),
{
    PacketHeader {
        packet_format: le_u16_at(s, i),
        game_major_version: s[i + 2],
        game_minor_version: s[i + 3],
        packet_id: s[i + 4],
        session_uid: le_u64_at(s, i + 5),
        session_time: le_u32_at(s, i + 13),
        frame_identifier: le_u32_at(s, i + 17),
        player_car_index: s[i + 21],
        secondary_player_car_index: s[i + 22],
    }
}

/// The 23 bytes that encode `h`, fields in wire order, multi-byte fields
/// little-endian.
pub open spec fn spec_encode_header(h: PacketHeader) -> Seq<u8> {
    u16_le_bytes(h.packet_format) + seq![h.game_major_version, h.game_minor_version, h.packet_id]
        + u64_le_bytes(h.session_uid) + u32_le_bytes(h.session_time) + u32_le_bytes(
        h.frame_identifier,
    ) + seq![h.player_car_index, h.secondary_player_car_index]
}

impl PacketHeader {
    /// Decodes the common header at the cursor's position.
    ///
    /// Fails with `TruncatedData` when fewer than [`HEADER_SIZE`] bytes
    /// remain (the cursor does not move), and with
    /// `UnsupportedFormatVersion` when the declared format version is not
    /// [`PACKET_FORMAT_2019`] (the cursor stops after the version field).
    /// On success the cursor stands at the first payload byte.
    pub fn new(cursor: &mut ByteCursor) -> (r: Result<PacketHeader, UnpackError>)
        requires
            old(cursor).wf(),
        ensures
            final(cursor).wf(),
            final(cursor).bytes() == old(cursor).bytes(),
            ({
                let s = old(cursor).bytes();
                let i = old(cursor).position();
                &&& old(cursor).remaining() < HEADER_SIZE ==> {
                    &&& r == Err::<PacketHeader, UnpackError>(UnpackError::TruncatedData)
                    &&& final(cursor).position() == i
                }
                &&& old(cursor).remaining() >= HEADER_SIZE && le_u16_at(s, i)
                    != PACKET_FORMAT_2019 ==> {
                    &&& r == Err::<PacketHeader, UnpackError>(
                        UnpackError::UnsupportedFormatVersion(le_u16_at(s, i)),
                    )
                    &&& final(cursor).position() == i + 2
                }
                &&& old(cursor).remaining() >= HEADER_SIZE && le_u16_at(s, i)
                    == PACKET_FORMAT_2019 ==> {
                    &&& r == Ok::<PacketHeader, UnpackError>(spec_header_at(s, i))
                    &&& final(cursor).position() == i + HEADER_SIZE
                }
            }),
    {
        if cursor.remaining_len() < HEADER_SIZE {
            return Err(UnpackError::TruncatedData);
        }
        let packet_format = cursor.read_u16()?;
        if packet_format != PACKET_FORMAT_2019 {
            return Err(UnpackError::UnsupportedFormatVersion(packet_format));
        }
        let game_major_version = cursor.read_u8()?;
        let game_minor_version = cursor.read_u8()?;
        let packet_id = cursor.read_u8()?;
        let session_uid = cursor.read_u64()?;
        let session_time = cursor.read_f32_bits()?;
        let frame_identifier = cursor.read_u32()?;
        let player_car_index = cursor.read_u8()?;
        let secondary_player_car_index = cursor.read_u8()?;
        Ok(
            PacketHeader {
                packet_format,
                game_major_version,
                game_minor_version,
                packet_id,
                session_uid,
                session_time,
                frame_identifier,
                player_car_index,
                secondary_player_car_index,
            },
        )
    }

    /// Encodes the header back into its 23-byte wire form.
    pub fn encode(&self) -> (out: Vec<u8>)
        ensures
            out@ == spec_encode_header(*self),
    {
        let mut out: Vec<u8> = Vec::new();
        out.push((self.packet_format & 0xff) as u8);
        out.push(((self.packet_format >> 8) & 0xff) as u8);
        out.push(self.game_major_version);
        out.push(self.game_minor_version);
        out.push(self.packet_id);
        out.push((self.session_uid & 0xff) as u8);
        out.push(((self.session_uid >> 8) & 0xff) as u8);
        out.push(((self.session_uid >> 16) & 0xff) as u8);
        out.push(((self.session_uid >> 24) & 0xff) as u8);
        out.push(((self.session_uid >> 32) & 0xff) as u8);
        out.push(((self.session_uid >> 40) & 0xff) as u8);
        out.push(((self.session_uid >> 48) & 0xff) as u8);
        out.push(((self.session_uid >> 56) & 0xff) as u8);
        out.push((self.session_time & 0xff) as u8);
        out.push(((self.session_time >> 8) & 0xff) as u8);
        out.push(((self.session_time >> 16) & 0xff) as u8);
        out.push(((self.session_time >> 24) & 0xff) as u8);
        out.push((self.frame_identifier & 0xff) as u8);
        out.push(((self.frame_identifier >> 8) & 0xff) as u8);
        out.push(((self.frame_identifier >> 16) & 0xff) as u8);
        out.push(((self.frame_identifier >> 24) & 0xff) as u8);
        out.push(self.player_car_index);
        out.push(self.secondary_player_car_index);
        proof {
            assert(out@ =~= spec_encode_header(*self));
        }
        out
    }
}

/// Law: re-encoding a decoded header reproduces the original bytes.  For
/// any buffer holding at least a full header at offset `i`, the header
/// value read there encodes back to exactly those [`HEADER_SIZE`] bytes.
pub proof fn lemma_header_round_trip(s: Seq<u8>, i: int)
    requires
        0 <= i,
        i + HEADER_SIZE <= s.len(),
    ensures
        spec_encode_header(spec_header_at(s, i)) == s.subrange(i, i + HEADER_SIZE),
{
    lemma_u16_le_round_trip(s, i);
    lemma_u64_le_round_trip(s, i + 5);
    lemma_u32_le_round_trip(s, i + 13);
    lemma_u32_le_round_trip(s, i + 17);
    assert(spec_encode_header(spec_header_at(s, i)) =~= s.subrange(i, i + HEADER_SIZE));
}

} // verus!
