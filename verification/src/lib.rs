//! Register-level driver logic for the ADXL345 3-axis digital accelerometer.
//!
//! The command set ([`Adxl345Reader`], [`Adxl345Writer`]) turns each named
//! operation of the device into reads and writes of single registers. The
//! two transport modules say how such a read or write is framed on the
//! two-wire bus and on the serial bus.

pub mod bits;
pub mod cmd;
pub mod error;
pub mod fields;
pub mod flags;
pub mod i2c;
pub mod register;
pub mod spi;
pub mod tap;
pub mod trace;
pub mod wire;

pub use cmd::{Adxl345, Adxl345Init, Adxl345Reader, Adxl345Writer};
pub use error::{AdxlError, AdxlResult};
pub use fields::{BandwidthRateControl, DataFormat, FifoControl, FifoStatus, PowerControl};
pub use flags::{ATStatus, ActivityMode, IntControlMode, IntMapMode, IntSource, TapMode};
pub use tap::Tap;
pub use trace::Traced;
