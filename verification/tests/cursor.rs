//! Unit tests for the little-endian byte cursor.

use f1_telemetry::cursor::ByteCursor;
use f1_telemetry::packet::UnpackError;

#[test]
fn reads_advance_in_order() {
    let mut c = ByteCursor::new(vec![0x01, 0x02, 0x03, 0x04, 0x05, 0x06, 0x07]);
    assert_eq!(c.read_u8(), Ok(0x01));
    assert_eq!(c.read_u16(), Ok(0x0302));
    assert_eq!(c.read_u32(), Ok(0x07060504));
    assert_eq!(c.remaining_len(), 0);
}

#[test]
fn u64_is_little_endian() {
    let mut c = ByteCursor::new(vec![0x88, 0x77, 0x66, 0x55, 0x44, 0x33, 0x22, 0x11]);
    assert_eq!(c.read_u64(), Ok(0x1122334455667788));
}

#[test]
fn i16_keeps_the_sign_bit() {
    let mut c = ByteCursor::new((-12345i16).to_le_bytes().to_vec());
    assert_eq!(c.read_i16(), Ok(-12345));
}

#[test]
fn f32_bits_are_read_verbatim() {
    let mut c = ByteCursor::new(1.5f32.to_le_bytes().to_vec());
    assert_eq!(c.read_f32_bits(), Ok(1.5f32.to_bits()));
}

#[test]
fn short_reads_fail_without_moving() {
    let mut c = ByteCursor::new(vec![0xaa, 0xbb, 0xcc]);
    assert_eq!(c.read_u32(), Err(UnpackError::TruncatedData));
    assert_eq!(c.remaining_len(), 3);
    assert_eq!(c.read_u16(), Ok(0xbbaa));
    assert_eq!(c.read_u16(), Err(UnpackError::TruncatedData));
    assert_eq!(c.read_u8(), Ok(0xcc));
    assert_eq!(c.read_u8(), Err(UnpackError::TruncatedData));
}
