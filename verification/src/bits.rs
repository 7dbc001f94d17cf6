//! Masks and sub-byte fields: the arithmetic every register type shares.

use crate::error::{AdxlError, AdxlResult};
use vstd::prelude::*;

verus! {

/// `value` has no bit set outside `mask`.
pub open spec fn within(mask: u8, value: u8) -> bool {
    value & !mask == 0
}

/// What decoding `value` against `mask` gives: the byte itself, or the
/// unknown-bit error that carries it.
pub open spec fn decoded(mask: u8, value: u8) -> AdxlResult<u8> {
    if within(mask, value) {
        Ok(value)
    } else {
        Err(AdxlError::UnknownModeBit(value))
    }
}

/// Serialising a decoded byte is the identity.
pub open spec fn encoded(raw: u8) -> u8 {
    raw
}

/// A field of `width` bits whose lowest bit is bit `low` lies inside a byte.
pub open spec fn placed(low: u8, width: u8) -> bool {
    1 <= width <= 8 && low <= 8 - width
}

/// The bits that the field covers.
pub open spec fn field_mask(low: u8, width: u8) -> u8 {
    (0xffu8 >> ((8 - width) as u8)) << low
}

/// The largest value the field can hold.
pub open spec fn field_max(width: u8) -> u8 {
    0xffu8 >> ((8 - width) as u8)
}

/// The value of the field inside `byte`.
pub open spec fn field_of(byte: u8, low: u8, width: u8) -> u8 {
    (byte & field_mask(low, width)) >> low
}

/// `byte` with the field replaced by the low `width` bits of `value`.
pub open spec fn with_field(byte: u8, low: u8, width: u8, value: u8) -> u8 {
    (byte & !field_mask(low, width)) | ((value << low) & field_mask(low, width))
}

/// Bit `index` of `byte` is set.
pub open spec fn has_bit(byte: u8, index: u8) -> bool {
    field_of(byte, index, 1) == 1
}

/// A flag as the one-bit field value that stores it.
pub open spec fn flag(on: bool) -> u8 {
    if on {
        1
    } else {
        0
    }
}

/// Decodes `value` against `mask`.
pub fn check_mask(mask: u8, value: u8) -> (r: AdxlResult<u8>)
    ensures
        r == decoded(mask, value),
{
    if value & !mask == 0 {
        Ok(value)
    } else {
        Err(AdxlError::UnknownModeBit(value))
    }
}

/// Reads a field out of `byte`.
pub fn get_field(byte: u8, low: u8, width: u8) -> (v: u8)
    requires
        placed(low, width),
    ensures
        v == field_of(byte, low, width),
        v <= field_max(width),
{
    let ones: u8 = 0xffu8 >> (8 - width);
    proof {
        lemma_field_bounded(byte, low, width);
    }
    (byte & (ones << low)) >> low
}

/// Reads one bit out of `byte`.
pub fn get_bit(byte: u8, index: u8) -> (b: bool)
    requires
        index < 8,
    ensures
        b == has_bit(byte, index),
{
    get_field(byte, index, 1) == 1
}

/// Writes a field into `byte`; bits of `value` above the field's width are dropped.
pub fn put_field(byte: u8, low: u8, width: u8, value: u8) -> (b: u8)
    requires
        placed(low, width),
    ensures
        b == with_field(byte, low, width, value),
{
    let ones: u8 = 0xffu8 >> (8 - width);
    let mask: u8 = ones << low;
    (byte & !mask) | ((value << low) & mask)
}

/// Writes one bit into `byte`.
pub fn put_bit(byte: u8, index: u8, on: bool) -> (b: u8)
    requires
        index < 8,
    ensures
        b == with_field(byte, index, 1, flag(on)),
{
    put_field(byte, index, 1, if on { 1 } else { 0 })
}

/// A field's value never exceeds what its width can hold.
pub proof fn lemma_field_bounded(byte: u8, low: u8, width: u8)
    by (bit_vector)
    requires
        1 <= width <= 8,
        low <= 8 - width,
    ensures
        (byte & ((0xffu8 >> ((8 - width) as u8)) << low)) >> low <= 0xffu8 >> ((8 - width) as u8),
{
}

/// What a field of each width can hold at most.
pub proof fn lemma_field_max()
    by (bit_vector)
    ensures
        field_max(1) == 0x01,
        field_max(2) == 0x03,
        field_max(3) == 0x07,
        field_max(4) == 0x0f,
        field_max(5) == 0x1f,
        field_max(6) == 0x3f,
        field_max(7) == 0x7f,
        field_max(8) == 0xff,
{
}

/// A byte accepted by its mask decodes to itself, and serialises back to
/// the byte that was decoded.
pub proof fn lemma_decode_round_trip(mask: u8, byte: u8)
    requires
        within(mask, byte),
    ensures
        decoded(mask, byte) == Ok::<u8, AdxlError>(byte),
        encoded(decoded(mask, byte)->Ok_0) == byte,
{
}

/// A byte with a bit outside the mask is refused, and the error carries it.
pub proof fn lemma_decode_rejects(mask: u8, byte: u8)
    requires
        !within(mask, byte),
    ensures
        decoded(mask, byte) == Err::<u8, AdxlError>(AdxlError::UnknownModeBit(byte)),
{
}

/// A field that was written reads back as the value, cut to the field's width.
pub proof fn lemma_field_read_back(byte: u8, low: u8, width: u8, value: u8)
    by (bit_vector)
    requires
        1 <= width <= 8,
        low <= 8 - width,
    ensures
        field_of(with_field(byte, low, width, value), low, width) == value & field_max(width),
{
}

/// Writing one field leaves every field that does not overlap it as it was.
pub proof fn lemma_field_keeps_others(
    byte: u8,
    low: u8,
    width: u8,
    value: u8,
    other_low: u8,
    other_width: u8,
)
    by (bit_vector)
    requires
        1 <= width <= 8,
        low <= 8 - width,
        1 <= other_width <= 8,
        other_low <= 8 - other_width,
        other_low + other_width <= low || low + width <= other_low,
    ensures
        field_of(with_field(byte, low, width, value), other_low, other_width) == field_of(
            byte,
            other_low,
            other_width,
        ),
{
}

/// Writing a field that the mask covers keeps a byte inside the mask.
pub proof fn lemma_field_stays_within(mask: u8, byte: u8, low: u8, width: u8, value: u8)
    by (bit_vector)
    requires
        1 <= width <= 8,
        low <= 8 - width,
        byte & !mask == 0,
        ((0xffu8 >> ((8 - width) as u8)) << low) & !mask == 0,
    ensures
        with_field(byte, low, width, value) & !mask == 0,
{
}

/// No bit and every bit of a mask both lie inside the mask.
pub proof fn lemma_mask_bounds(mask: u8)
    by (bit_vector)
    ensures
        0u8 & !mask == 0,
        mask & !mask == 0,
{
}

/// The union of two bytes inside a mask is inside the mask.
pub proof fn lemma_union_within(mask: u8, a: u8, b: u8)
    by (bit_vector)
    requires
        a & !mask == 0,
        b & !mask == 0,
    ensures
        (a | b) & !mask == 0,
{
}

} // verus!
