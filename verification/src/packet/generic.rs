//! Value groups shared by several packet types.

use vstd::prelude::*;

use crate::bytes::le_u32_at;
use crate::cursor::ByteCursor;
use crate::packet::UnpackError;

verus! {

/// Width in bytes of one wheel quad on the wire: four 32-bit values.
pub const WHEEL_QUAD_SIZE: usize = 16;

/// A fixed four-element record keyed by wheel position, used wherever
/// per-wheel values appear.  The element order is always rear left,
/// rear right, front left, front right; decoders and consumers never
/// reorder it.
#[derive(Debug, Clone, Copy, PartialEq, Eq, Structural)]
pub struct WheelData<T> {
    pub rear_left: T,
    pub rear_right: T,
    pub front_left: T,
    pub front_right: T,
}

impl<T> WheelData<T> {
    /// Builds a wheel quad from its four values, given in canonical
    /// order: rear left, rear right, front left, front right.
    pub fn new(rear_left: T, rear_right: T, front_left: T, front_right: T) -> (w: WheelData<T>)
        ensures
            w.rear_left == rear_left,
            w.rear_right == rear_right,
            w.front_left == front_left,
            w.front_right == front_right,
    {
        WheelData { rear_left, rear_right, front_left, front_right }
    }
}

/// The wheel quad of raw 32-bit float bit patterns stored at offset `i`
/// of `s`: rear left first, then rear right, front left, front right.
pub open spec fn spec_wheel_quad_at(s: Seq<u8>, i: int) -> WheelData<u32>
    recommends
        0 <= i,
        i + WHEEL_QUAD_SIZE <= s.len(),
{
    WheelData {
        rear_left: le_u32_at(s, i),
        rear_right: le_u32_at(s, i + 4),
        front_left: le_u32_at(s, i + 8),
        front_right: le_u32_at(s, i + 12),
    }
}

/// Decodes one wheel quad of raw float bit patterns, preserving the
/// canonical wheel order of the wire format.
pub fn read_wheel_quad(cursor: &mut ByteCursor) -> (r: Result<WheelData<u32>, UnpackError>)
    requires
        old(cursor).wf(),
    ensures
        final(cursor).wf(),
        final(cursor).bytes() == old(cursor).bytes(),
        old(cursor).remaining() >= WHEEL_QUAD_SIZE ==> {
            &&& r == Ok::<WheelData<u32>, UnpackError>(
                spec_wheel_quad_at(old(cursor).bytes(), old(cursor).position()),
            )
            &&& final(cursor).position() == old(cursor).position() + WHEEL_QUAD_SIZE
        },
        old(cursor).remaining() < WHEEL_QUAD_SIZE ==> {
            &&& r == Err::<WheelData<u32>, UnpackError>(UnpackError::TruncatedData)
            &&& final(cursor).position() == old(cursor).position()
        },
{
    if cursor.remaining_len() < WHEEL_QUAD_SIZE {
        return Err(UnpackError::TruncatedData);
    }
    let rear_left = cursor.read_f32_bits()?;
    let rear_right = cursor.read_f32_bits()?;
    let front_left = cursor.read_f32_bits()?;
    let front_right = cursor.read_f32_bits()?;
    Ok(WheelData::new(rear_left, rear_right, front_left, front_right))
}

} // verus!
