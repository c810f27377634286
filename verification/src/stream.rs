//! The decision core of the non-blocking stream reader.
//!
//! The reader around a datagram socket performs one non-blocking receive
//! per poll and reports what it saw as a [`SocketEvent`].  What each
//! event means for the caller — one decoded packet, "no data yet", or a
//! failure — is decided here, by [`poll_step`], a pure function of the
//! event alone.  Polling therefore never blocks, consumes at most one
//! datagram per call, and a failed decode leaves nothing behind that
//! could affect the next poll.

use vstd::prelude::*;

use crate::packet::{
    parse_packet, spec_packet_matches, spec_parse_err, spec_parse_ok, Packet, UnpackError,
};

verus! {

/// What one non-blocking receive on the datagram socket yielded.
#[derive(Debug, Clone, PartialEq)]
pub enum SocketEvent {
    /// One whole datagram arrived; carries its bytes.
    Datagram(Vec<u8>),
    /// No datagram was pending; the receive would have blocked.
    NoData,
    /// The receive failed for a reason other than "would block".
    ReadFailed,
}

/// What one poll of the stream reader yields.
#[derive(Debug, Clone, PartialEq)]
pub enum PollOutcome {
    /// The pending datagram decoded to one whole packet.
    Received(Packet),
    /// No datagram was pending; not an error, polling may continue.
    NoData,
    /// The pending datagram was malformed; it is discarded and polling
    /// may continue.
    DecodeFailed(UnpackError),
    /// The socket read itself failed; the caller decides whether that
    /// is fatal.
    SocketFailed,
}

/// Turns one receive event into the outcome of one poll.
///
/// A pending datagram is decoded whole: a well-formed one yields exactly
/// one packet, a malformed one yields the decode error.  "No datagram
/// pending" is answered with [`PollOutcome::NoData`], never with an
/// error.  The outcome depends on nothing but the event, so a failure
/// cannot corrupt later polls.
pub fn poll_step(event: SocketEvent) -> (r: PollOutcome)
    ensures
        match event {
            SocketEvent::Datagram(buf) => {
                if spec_parse_ok(buf@) {
                    r matches PollOutcome::Received(p) && spec_packet_matches(p, buf@)
                } else {
                    r == PollOutcome::DecodeFailed(spec_parse_err(buf@))
                }
            },
            SocketEvent::NoData => r == PollOutcome::NoData,
            SocketEvent::ReadFailed => r == PollOutcome::SocketFailed,
        },
{
    match event {
        SocketEvent::Datagram(buf) => {
            proof {
                assert(buf@.subrange(0, buf@.len() as int) =~= buf@);
            }
            match parse_packet(buf.len(), buf.as_slice()) {
                Ok(p) => PollOutcome::Received(p),
                Err(e) => PollOutcome::DecodeFailed(e),
            }
        },
        SocketEvent::NoData => PollOutcome::NoData,
        SocketEvent::ReadFailed => PollOutcome::SocketFailed,
    }
}

} // verus!
