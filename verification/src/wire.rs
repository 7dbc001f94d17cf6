//! How register bytes stand for signed values: two's complement for the
//! offsets, little-endian two's complement for the acceleration counts.

use vstd::prelude::*;

verus! {

/// The signed value that a byte stands for in two's complement.
pub open spec fn signed(byte: u8) -> i8 {
    if byte < 128 {
        byte as i8
    } else {
        (byte - 256) as i8
    }
}

/// The byte that stands for a signed value in two's complement.
pub open spec fn unsigned(value: i8) -> u8 {
    if value >= 0 {
        value as u8
    } else {
        (value + 256) as u8
    }
}

/// The signed 16-bit value that two bytes stand for, low byte first.
pub open spec fn le_i16(low: u8, high: u8) -> i16 {
    if high < 128 {
        (low + 256 * high) as i16
    } else {
        (low + 256 * high - 65536) as i16
    }
}

/// The three counts that six data bytes stand for, in register order.
pub open spec fn sample(data: Seq<u8>) -> (i16, i16, i16) {
    (le_i16(data[0], data[1]), le_i16(data[2], data[3]), le_i16(data[4], data[5]))
}

/// Reads a register byte as a signed value.
pub fn to_signed(byte: u8) -> (v: i8)
    ensures
        v == signed(byte),
        unsigned(v) == byte,
{
    if byte < 128 {
        byte as i8
    } else {
        let below: i8 = (byte - 128) as i8;
        below - 127 - 1
    }
}

/// Writes a signed value as a register byte.
pub fn to_unsigned(value: i8) -> (b: u8)
    ensures
        b == unsigned(value),
        signed(b) == value,
{
    if value >= 0 {
        value as u8
    } else {
        let above: u8 = (value + 127 + 1) as u8;
        above + 128
    }
}

/// Joins two bytes, low byte first, into a signed 16-bit value.
pub fn i16_from_le(low: u8, high: u8) -> (v: i16)
    ensures
        v == le_i16(low, high),
{
    if high < 128 {
        let joined: i16 = (high as i16) * 256 + (low as i16);
        joined
    } else {
        let joined: i16 = ((high - 128) as i16) * 256 + (low as i16);
        joined - 32767 - 1
    }
}

/// Decoding and encoding an offset undo each other, in both directions.
pub proof fn lemma_offset_round_trip(byte: u8, value: i8)
    ensures
        unsigned(signed(byte)) == byte,
        signed(unsigned(value)) == value,
{
}

} // verus!
