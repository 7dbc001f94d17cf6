//! Framing for the synchronous serial bus.
//!
//! Every transfer starts with one byte that carries the register address in
//! its low bits, the read flag in bit 7 and the multi-byte flag in bit 6.
//! The bus is full duplex: a read sends as many bytes as it receives, and
//! the first byte received, clocked in while the address goes out, means
//! nothing.

use crate::error::{AdxlError, AdxlResult};
use crate::register::DATAX0;
use crate::wire::{i16_from_le, sample};
use vstd::prelude::*;

verus! {

/// Set in the first byte of a transfer that reads.
pub const READ_BIT: u8 = 0x80;

/// Set in the first byte of a transfer that spans several registers.
pub const MULTIBYTE_BIT: u8 = 0x40;

/// The largest register address that leaves bit 7 free for the read flag.
pub const MAX_ADDRESS: u8 = 0x7f;

/// The clock speed of the default bus parameters, in Hz.
pub const DEFAULT_CLOCK_SPEED: u32 = 1_000_000;

/// A serial bus of the host.
#[derive(Debug, Clone, Copy, PartialEq, Eq, Structural)]
pub enum Bus {
    Spi0,
    Spi1,
    Spi2,
}

/// A chip-select line of a bus.
#[derive(Debug, Clone, Copy, PartialEq, Eq, Structural)]
pub enum SlaveSelect {
    Ss0,
    Ss1,
    Ss2,
}

/// What it takes to open the bus endpoint of one device.
#[derive(Debug, Clone, Copy, PartialEq, Eq, Structural)]
pub struct BusParams {
    pub bus: Bus,
    pub slave_select: SlaveSelect,
    /// Clock speed in Hz.
    pub clock_speed: u32,
    /// 3-wire wiring; 4-wire when false. It changes no frame: it is what
    /// initialization tells the device to expect.
    pub three_wire: bool,
}

/// The bus with the given index, if there is one.
pub open spec fn bus_at(index: u8) -> Option<Bus> {
    if index == 0 {
        Some(Bus::Spi0)
    } else if index == 1 {
        Some(Bus::Spi1)
    } else if index == 2 {
        Some(Bus::Spi2)
    } else {
        None
    }
}

/// The chip-select line with the given index, if there is one.
pub open spec fn slave_select_at(index: u8) -> Option<SlaveSelect> {
    if index == 0 {
        Some(SlaveSelect::Ss0)
    } else if index == 1 {
        Some(SlaveSelect::Ss1)
    } else if index == 2 {
        Some(SlaveSelect::Ss2)
    } else {
        None
    }
}

/// The first byte of a transfer that reads one register.
pub open spec fn read_address(register: u8) -> u8 {
    register | READ_BIT
}

/// The first byte of a transfer that reads several registers.
pub open spec fn burst_address(register: u8) -> u8 {
    register | READ_BIT | MULTIBYTE_BIT
}

impl BusParams {
    /// Parameters for bus `bus` (0 to 2) and chip-select `slave_select`
    /// (0 to 2). Any other index is refused.
    pub fn new(bus: u8, slave_select: u8, clock_speed: u32, three_wire: bool) -> (r: AdxlResult<
        Self,
    >)
        ensures
            r == match (bus_at(bus), slave_select_at(slave_select)) {
                (Some(b), Some(s)) => Ok(
                    BusParams { bus: b, slave_select: s, clock_speed, three_wire },
                ),
                _ => Err(AdxlError::InvalidBusParams),
            },
    {
        let b = match bus {
            0 => Bus::Spi0,
            1 => Bus::Spi1,
            2 => Bus::Spi2,
            _ => return Err(AdxlError::InvalidBusParams),
        };
        let s = match slave_select {
            0 => SlaveSelect::Ss0,
            1 => SlaveSelect::Ss1,
            2 => SlaveSelect::Ss2,
            _ => return Err(AdxlError::InvalidBusParams),
        };
        Ok(BusParams { bus: b, slave_select: s, clock_speed, three_wire })
    }
}

impl Default for BusParams {
    /// Bus 0, chip-select 0, 1 MHz, 4-wire.
    fn default() -> (params: Self)
        ensures
            params == (BusParams {
                bus: Bus::Spi0,
                slave_select: SlaveSelect::Ss0,
                clock_speed: DEFAULT_CLOCK_SPEED,
                three_wire: false,
            }),
    {
        BusParams {
            bus: Bus::Spi0,
            slave_select: SlaveSelect::Ss0,
            clock_speed: DEFAULT_CLOCK_SPEED,
            three_wire: false,
        }
    }
}

/// A failure of the bus, as the driver reports it: the bus layer's text,
/// marked as coming from the serial bus.
pub fn bus_error(text: String) -> (e: AdxlError)
    ensures
        e == AdxlError::Spi(text),
{
    AdxlError::Spi(text)
}

/// The bytes to send to read `register`: the address with the read flag,
/// then a zero that clocks the reply in. An address that needs bit 7 cannot
/// be framed and is refused.
pub fn access_frame(register: u8) -> (r: AdxlResult<[u8; 2]>)
    ensures
        register <= MAX_ADDRESS ==> r is Ok && r->Ok_0@ == seq![read_address(register), 0u8],
        register > MAX_ADDRESS ==> r == Err::<[u8; 2], AdxlError>(
            AdxlError::IllegalWriteAddress(register),
        ),
{
    if register > MAX_ADDRESS {
        return Err(AdxlError::IllegalWriteAddress(register));
    }
    let frame = [register | READ_BIT, 0u8];
    assert(frame@ =~= seq![read_address(register), 0u8]);
    Ok(frame)
}

/// The register's value in what a read received: the second byte.
pub fn access_reply(received: &[u8; 2]) -> (byte: u8)
    ensures
        byte == received[1],
{
    received[1]
}

/// The bytes to send to write `byte` to `register`: the address with both
/// flags clear, then the data. Nothing is read back. An address that needs
/// bit 7 cannot be framed and is refused.
pub fn command_frame(register: u8, byte: u8) -> (r: AdxlResult<[u8; 2]>)
    ensures
        register <= MAX_ADDRESS ==> r is Ok && r->Ok_0@ == seq![register, byte],
        register > MAX_ADDRESS ==> r == Err::<[u8; 2], AdxlError>(
            AdxlError::IllegalWriteAddress(register),
        ),
{
    if register > MAX_ADDRESS {
        return Err(AdxlError::IllegalWriteAddress(register));
    }
    let frame = [register, byte];
    assert(frame@ =~= seq![register, byte]);
    Ok(frame)
}

/// The bytes to send to read the six acceleration data registers in one
/// transfer: the first data register's address with both flags, then six
/// zeros that clock the reply in.
pub fn acceleration_frame() -> (frame: [u8; 7])
    ensures
        frame@ == seq![burst_address(DATAX0), 0u8, 0u8, 0u8, 0u8, 0u8, 0u8],
        frame[0] == 0xf2,
{
    let frame = [DATAX0 | READ_BIT | MULTIBYTE_BIT, 0u8, 0u8, 0u8, 0u8, 0u8, 0u8];
    assert(frame@ =~= seq![burst_address(DATAX0), 0u8, 0u8, 0u8, 0u8, 0u8, 0u8]);
    assert(0x32u8 | 0x80u8 | 0x40u8 == 0xf2u8) by (bit_vector);
    frame
}

/// The counts in what a burst read received: the six bytes after the first.
pub fn acceleration_reply(received: &[u8; 7]) -> (counts: (i16, i16, i16))
    ensures
        counts == sample(received@.subrange(1, 7)),
{
    (
        i16_from_le(received[1], received[2]),
        i16_from_le(received[3], received[4]),
        i16_from_le(received[5], received[6]),
    )
}

/// The address byte of a read keeps the register in its low seven bits and
/// has bit 7 set; that of a write, the register itself, has bit 7 clear.
pub proof fn lemma_read_flag(register: u8)
    by (bit_vector)
    requires
        register <= 0x7f,
    ensures
        (register | 0x80u8) & 0x7f == register,
        (register | 0x80u8) & 0x80 == 0x80,
        register & 0x80 == 0,
        (register | 0x80u8) == register + 0x80,
{
}

} // verus!
