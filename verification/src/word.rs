//! Signed readings from register bytes.

use vstd::prelude::*;

verus! {

/// The signed 16-bit number whose two's complement has `hi` as its high
/// byte and `lo` as its low byte.
pub open spec fn be_i16(hi: u8, lo: u8) -> int {
    let raw = hi * 256 + lo;
    if raw >= 32768 {
        raw - 65536
    } else {
        raw
    }
}

/// The signed 8-bit number whose two's complement is `byte`.
pub open spec fn signed_byte(byte: u8) -> int {
    if byte >= 128 {
        byte - 256
    } else {
        byte as int
    }
}

/// Reads a big-endian signed 16-bit number.
pub fn i16_from_be_bytes(hi: u8, lo: u8) -> (value: i16)
    ensures
        value == be_i16(hi, lo),
{
    let raw: i32 = hi as i32 * 256 + lo as i32;
    if raw >= 32768 {
        (raw - 65536) as i16
    } else {
        raw as i16
    }
}

/// Reads a signed 8-bit number.
pub fn i8_from_byte(byte: u8) -> (value: i8)
    ensures
        value == signed_byte(byte),
{
    if byte >= 128 {
        (byte as i16 - 256) as i8
    } else {
        byte as i8
    }
}

} // verus!
