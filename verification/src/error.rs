//! The error and result types shared by every operation of the driver.

use vstd::prelude::*;

verus! {

/// Everything that can go wrong between a caller and the accelerometer.
#[derive(Debug, PartialEq, Eq)]
pub enum AdxlError {
    /// The register address is read-only, reserved, or cannot be framed.
    IllegalWriteAddress(u8),
    /// The two-wire bus reported a failure; the text is the bus layer's own.
    I2c(String),
    /// The serial bus reported a failure; the text is the bus layer's own.
    Spi(String),
    /// The byte has a bit set that the register does not define.
    UnknownModeBit(u8),
    /// A bus or chip-select index outside the supported range.
    InvalidBusParams,
}

/// Result of an operation of the driver.
pub type AdxlResult<T> = Result<T, AdxlError>;

} // verus!
