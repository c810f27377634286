//! Decoder library for the UDP telemetry feed of a racing simulation.
//!
//! Datagrams carry a fixed-size common header followed by a packet-type
//! specific payload in a fixed little-endian binary layout.  This crate
//! turns one raw datagram into a strongly typed packet value, rejecting
//! truncated, oversized, unversioned or unknown input without panicking.
//!
//! Fields that the wire format stores as 32-bit IEEE 754 floats are kept
//! as their raw little-endian bit patterns (`u32`); interpreting them is
//! a presentation-layer concern and stays out of the decoders.

pub mod bytes;
pub mod cursor;
pub mod fmt;
pub mod packet;
pub mod stream;
