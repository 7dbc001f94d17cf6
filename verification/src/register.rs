//! The register map of the device, by datasheet name.

use vstd::prelude::*;

verus! {

/// Device ID (read-only).
pub const DEVID: u8 = 0x00;

/// Tap threshold.
pub const THRESH_TAP: u8 = 0x1d;

/// X-axis offset.
pub const OFSX: u8 = 0x1e;

/// Y-axis offset.
pub const OFSY: u8 = 0x1f;

/// Z-axis offset.
pub const OFSZ: u8 = 0x20;

/// Tap duration.
pub const DUR: u8 = 0x21;

/// Tap latency.
pub const LATENT: u8 = 0x22;

/// Tap window.
pub const WINDOW: u8 = 0x23;

/// Activity threshold.
pub const THRESH_ACT: u8 = 0x24;

/// Inactivity threshold.
pub const THRESH_INACT: u8 = 0x25;

/// Inactivity time.
pub const TIME_INACT: u8 = 0x26;

/// Axis enable control for activity and inactivity detection.
pub const ACT_INACT_CTL: u8 = 0x27;

/// Free-fall threshold.
pub const THRESH_FF: u8 = 0x28;

/// Free-fall time.
pub const TIME_FF: u8 = 0x29;

/// Axis control for single tap and double tap.
pub const TAP_AXES: u8 = 0x2a;

/// Source of a tap or activity event (read-only).
pub const ACT_TAP_STATUS: u8 = 0x2b;

/// Data rate and power mode control.
pub const BW_RATE: u8 = 0x2c;

/// Power-saving features control.
pub const POWER_CTL: u8 = 0x2d;

/// Interrupt enable control.
pub const INT_ENABLE: u8 = 0x2e;

/// Interrupt mapping control.
pub const INT_MAP: u8 = 0x2f;

/// Source of interrupts (read-only).
pub const INT_SOURCE: u8 = 0x30;

/// Data format control.
pub const DATA_FORMAT: u8 = 0x31;

/// First of the six acceleration data registers (read-only).
pub const DATAX0: u8 = 0x32;

/// FIFO control.
pub const FIFO_CTL: u8 = 0x38;

/// FIFO status (read-only).
pub const FIFO_STATUS: u8 = 0x39;

/// The address names a register of the device: 0x01 to 0x1c are reserved,
/// and nothing lies past the FIFO status register.
pub open spec fn is_register(address: u8) -> bool {
    address == DEVID || THRESH_TAP <= address <= FIFO_STATUS
}

/// The address names a register that takes writes.
pub open spec fn is_writable(address: u8) -> bool {
    &&& is_register(address)
    &&& address != DEVID
    &&& address != ACT_TAP_STATUS
    &&& address != INT_SOURCE
    &&& !(DATAX0 <= address < FIFO_CTL)
    &&& address != FIFO_STATUS
}

/// Tells whether a write to `address` is legal.
pub fn writable(address: u8) -> (b: bool)
    ensures
        b == is_writable(address),
{
    (THRESH_TAP <= address && address <= FIFO_CTL) && address != ACT_TAP_STATUS && address
        != INT_SOURCE && !(DATAX0 <= address && address < FIFO_CTL)
}

} // verus!
