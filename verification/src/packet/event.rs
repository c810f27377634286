//! The event packet: a notification that something happened during the
//! session, identified by a short code.
//!
//! Wire layout (format version 2019): the common header, then a
//! four-byte ASCII event string code ([`EVENT_PAYLOAD_SIZE`] payload
//! bytes), for example `SSTA` when the session starts.

use vstd::prelude::*;

use crate::cursor::ByteCursor;
use crate::packet::header::PacketHeader;
use crate::packet::UnpackError;

verus! {

/// Width in bytes of the event packet's payload after the header.
pub const EVENT_PAYLOAD_SIZE: usize = 4;

/// One fully decoded event packet: a header and the four-byte event
/// string code, kept verbatim.
#[derive(Debug, Clone, PartialEq)]
pub struct PacketEventData {
    pub header: PacketHeader,
    pub event_code: Vec<u8>,
}

/// Holds exactly when `p` is the event packet whose payload is stored at
/// offset `i` of `s` and whose header is `h`.
pub open spec fn spec_event_packet_matches(
    p: PacketEventData,
    s: Seq<u8>,
    i: int,
    h: PacketHeader,
) -> bool
    recommends
        0 <= i,
        i + EVENT_PAYLOAD_SIZE <= s.len(),
{
    &&& p.header == h
    &&& p.event_code@ == s.subrange(i, i + EVENT_PAYLOAD_SIZE)
}

impl PacketEventData {
    /// Decodes the event packet's payload at the cursor's position,
    /// which must stand immediately after the already-decoded header
    /// `header`.  Fails with `TruncatedData`, without moving the cursor,
    /// when fewer than [`EVENT_PAYLOAD_SIZE`] bytes remain.
    pub fn new(cursor: &mut ByteCursor, header: PacketHeader) -> (r: Result<
        PacketEventData,
        UnpackError,
    >)
        requires
            old(cursor).wf(),
        ensures
            final(cursor).wf(),
            final(cursor).bytes() == old(cursor).bytes(),
            old(cursor).remaining() >= EVENT_PAYLOAD_SIZE ==> {
                &&& r matches Ok(p) && spec_event_packet_matches(
                    p,
                    old(cursor).bytes(),
                    old(cursor).position(),
                    header,
                )
                &&& final(cursor).position() == old(cursor).position() + EVENT_PAYLOAD_SIZE
            },
            old(cursor).remaining() < EVENT_PAYLOAD_SIZE ==> {
                &&& r == Err::<PacketEventData, UnpackError>(UnpackError::TruncatedData)
                &&& final(cursor).position() == old(cursor).position()
            },
    {
        if cursor.remaining_len() < EVENT_PAYLOAD_SIZE {
            return Err(UnpackError::TruncatedData);
        }
        let ghost s = cursor.bytes();
        let ghost i0 = cursor.position();
        let c0 = cursor.read_u8()?;
        let c1 = cursor.read_u8()?;
        let c2 = cursor.read_u8()?;
        let c3 = cursor.read_u8()?;
        let mut event_code: Vec<u8> = Vec::new();
        event_code.push(c0);
        event_code.push(c1);
        event_code.push(c2);
        event_code.push(c3);
        proof {
            assert(event_code@ =~= s.subrange(i0, i0 + EVENT_PAYLOAD_SIZE));
        }
        Ok(PacketEventData { header, event_code })
    }
}

} // verus!
