//! Sequential little-endian reader over one datagram's bytes.

use vstd::prelude::*;

use crate::bytes::{le_i16_at, le_u16_at, le_u32_at, le_u64_at};
use crate::packet::UnpackError;

verus! {

/// A stateful reader over a fixed byte buffer.  Each typed read either
/// yields the little-endian value at the current position and advances
/// the position by the value's width, or fails with
/// [`UnpackError::TruncatedData`] when fewer bytes remain than the width
/// requires; a failed read never moves the position and never reads out
/// of bounds.
pub struct ByteCursor {
    data: Vec<u8>,
    pos: usize,
}

impl ByteCursor {
    /// The whole buffer under the cursor.
    pub closed spec fn bytes(&self) -> Seq<u8> {
        self.data@
    }

    /// The current read position.
    pub closed spec fn position(&self) -> int {
        self.pos as int
    }

    /// How many bytes remain from the position to the end of the buffer.
    pub open spec fn remaining(&self) -> int {
        self.bytes().len() - self.position()
    }

    /// The position stays between the start and the end of the buffer.
    pub open spec fn wf(&self) -> bool {
        0 <= self.position() <= self.bytes().len()
    }

    /// A cursor positioned at the start of `data`.
    pub fn new(data: Vec<u8>) -> (c: ByteCursor)
        ensures
            c.wf(),
            c.bytes() == data@,
            c.position() == 0,
    {
        ByteCursor { data, pos: 0 }
    }

    /// How many bytes are still unread.
    pub fn remaining_len(&self) -> (n: usize)
        requires
            self.wf(),
        ensures
            n == self.remaining(),
    {
        self.data.len() - self.pos
    }

    /// Reads one byte.
    pub fn read_u8(&mut self) -> (r: Result<u8, UnpackError>)
        requires
            old(self).wf(),
        ensures
            final(self).wf(),
            final(self).bytes() == old(self).bytes(),
            old(self).remaining() >= 1 ==> {
                &&& final(self).position() == old(self).position() + 1
                &&& r == Ok::<u8, UnpackError>(old(self).bytes()[old(self).position()])
            },
            old(self).remaining() < 1 ==> {
                &&& final(self).position() == old(self).position()
                &&& r == Err::<u8, UnpackError>(UnpackError::TruncatedData)
            },
    {
        if self.data.len() - self.pos >= 1 {
            let b = self.data[self.pos];
            self.pos = self.pos + 1;
            Ok(b)
        } else {
            Err(UnpackError::TruncatedData)
        }
    }

    /// Reads a 16-bit unsigned integer, least significant byte first.
    pub fn read_u16(&mut self) -> (r: Result<u16, UnpackError>)
        requires
            old(self).wf(),
        ensures
            final(self).wf(),
            final(self).bytes() == old(self).bytes(),
            old(self).remaining() >= 2 ==> {
                &&& final(self).position() == old(self).position() + 2
                &&& r == Ok::<u16, UnpackError>(le_u16_at(old(self).bytes(), old(self).position()))
            },
            old(self).remaining() < 2 ==> {
                &&& final(self).position() == old(self).position()
                &&& r == Err::<u16, UnpackError>(UnpackError::TruncatedData)
            },
    {
        if self.data.len() - self.pos >= 2 {
            let b0 = self.data[self.pos];
            let b1 = self.data[self.pos + 1];
            self.pos = self.pos + 2;
            Ok((b0 as u16) | ((b1 as u16) << 8))
        } else {
            Err(UnpackError::TruncatedData)
        }
    }

    /// Reads a 16-bit signed integer, least significant byte first.
    pub fn read_i16(&mut self) -> (r: Result<i16, UnpackError>)
        requires
            old(self).wf(),
        ensures
            final(self).wf(),
            final(self).bytes() == old(self).bytes(),
            old(self).remaining() >= 2 ==> {
                &&& final(self).position() == old(self).position() + 2
                &&& r == Ok::<i16, UnpackError>(le_i16_at(old(self).bytes(), old(self).position()))
            },
            old(self).remaining() < 2 ==> {
                &&& final(self).position() == old(self).position()
                &&& r == Err::<i16, UnpackError>(UnpackError::TruncatedData)
            },
    {
        match self.read_u16() {
            Ok(v) => Ok(v as i16),
            Err(e) => Err(e),
        }
    }

    /// Reads a 32-bit unsigned integer, least significant byte first.
    pub fn read_u32(&mut self) -> (r: Result<u32, UnpackError>)
        requires
            old(self).wf(),
        ensures
            final(self).wf(),
            final(self).bytes() == old(self).bytes(),
            old(self).remaining() >= 4 ==> {
                &&& final(self).position() == old(self).position() + 4
                &&& r == Ok::<u32, UnpackError>(le_u32_at(old(self).bytes(), old(self).position()))
            },
            old(self).remaining() < 4 ==> {
                &&& final(self).position() == old(self).position()
                &&& r == Err::<u32, UnpackError>(UnpackError::TruncatedData)
            },
    {
        if self.data.len() - self.pos >= 4 {
            let b0 = self.data[self.pos];
            let b1 = self.data[self.pos + 1];
            let b2 = self.data[self.pos + 2];
            let b3 = self.data[self.pos + 3];
            self.pos = self.pos + 4;
            Ok((b0 as u32) | ((b1 as u32) << 8) | ((b2 as u32) << 16) | ((b3 as u32) << 24))
        } else {
            Err(UnpackError::TruncatedData)
        }
    }

    /// Reads a 64-bit unsigned integer, least significant byte first.
    pub fn read_u64(&mut self) -> (r: Result<u64, UnpackError>)
        requires
            old(self).wf(),
        ensures
            final(self).wf(),
            final(self).bytes() == old(self).bytes(),
            old(self).remaining() >= 8 ==> {
                &&& final(self).position() == old(self).position() + 8
                &&& r == Ok::<u64, UnpackError>(le_u64_at(old(self).bytes(), old(self).position()))
            },
            old(self).remaining() < 8 ==> {
                &&& final(self).position() == old(self).position()
                &&& r == Err::<u64, UnpackError>(UnpackError::TruncatedData)
            },
    {
        if self.data.len() - self.pos >= 8 {
            let b0 = self.data[self.pos];
            let b1 = self.data[self.pos + 1];
            let b2 = self.data[self.pos + 2];
            let b3 = self.data[self.pos + 3];
            let b4 = self.data[self.pos + 4];
            let b5 = self.data[self.pos + 5];
            let b6 = self.data[self.pos + 6];
            let b7 = self.data[self.pos + 7];
            self.pos = self.pos + 8;
            Ok((b0 as u64) | ((b1 as u64) << 8) | ((b2 as u64) << 16) | ((b3 as u64) << 24) | ((b4
                as u64) << 32) | ((b5 as u64) << 40) | ((b6 as u64) << 48) | ((b7 as u64) << 56))
        } else {
            Err(UnpackError::TruncatedData)
        }
    }

    /// Reads the raw bit pattern of a 32-bit IEEE 754 float stored
    /// little-endian.  The bits are returned verbatim; turning them into
    /// a numeric value is left to the consumer of the decoded packet.
    pub fn read_f32_bits(&mut self) -> (r: Result<u32, UnpackError>)
        requires
            old(self).wf(),
        ensures
            final(self).wf(),
            final(self).bytes() == old(self).bytes(),
            old(self).remaining() >= 4 ==> {
                &&& final(self).position() == old(self).position() + 4
                &&& r == Ok::<u32, UnpackError>(le_u32_at(old(self).bytes(), old(self).position()))
            },
            old(self).remaining() < 4 ==> {
                &&& final(self).position() == old(self).position()
                &&& r == Err::<u32, UnpackError>(UnpackError::TruncatedData)
            },
    {
        self.read_u32()
    }
}

} // verus!
