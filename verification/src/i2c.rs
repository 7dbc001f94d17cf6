//! Framing for the addressed two-wire bus.
//!
//! A read is one combined transaction: the register address is written,
//! then, after a repeated start, the data is read. A write is one
//! transaction of the register address followed by the data. The bus layer
//! builds both from the address and the data, so all that is left to say
//! here is where the device answers, where the acceleration data starts,
//! and what its six bytes mean.

use crate::error::AdxlError;
use crate::register::DATAX0;
use crate::wire::{i16_from_le, sample};
use vstd::prelude::*;

verus! {

/// The bus address of the device while its address pin is low.
pub const DEFAULT_ADDRESS: u16 = 0x53;

/// The bus address of the device while its address pin is high.
pub const ALT_ADDRESS: u16 = 0x1d;

/// The register at which the burst read of the acceleration data starts.
pub const ACCELERATION_START: u8 = DATAX0;

/// A failure of the bus, as the driver reports it: the bus layer's text,
/// marked as coming from the two-wire bus.
pub fn bus_error(text: String) -> (e: AdxlError)
    ensures
        e == AdxlError::I2c(text),
{
    AdxlError::I2c(text)
}

/// The counts in the six bytes that a burst read received.
pub fn acceleration_reply(received: &[u8; 6]) -> (counts: (i16, i16, i16))
    ensures
        counts == sample(received@),
{
    (
        i16_from_le(received[0], received[1]),
        i16_from_le(received[2], received[3]),
        i16_from_le(received[4], received[5]),
    )
}

} // verus!
