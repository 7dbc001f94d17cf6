//! The register command set: every named operation of the device, built on
//! the two primitives that a transport binding provides.
//!
//! | Register    | Datasheet name  | Reader               | Writer                   |
//! | ----------: | :-------------: | -------------------- | ------------------------ |
//! |        0x00 | DEVID           | device_id            | read-only                |
//! | 0x01 - 0x1c | reserved        |                      |                          |
//! |        0x1d | THRESH_TAP      | tap_threshold        | set_tap_threshold        |
//! |        0x1e | OFSX            | x_offset             | set_x_offset             |
//! |        0x1f | OFSY            | y_offset             | set_y_offset             |
//! |        0x20 | OFSZ            | z_offset             | set_z_offset             |
//! |        0x21 | DUR             | tap_duration         | set_tap_duration         |
//! |        0x22 | Latent          | tap_latency          | set_tap_latency          |
//! |        0x23 | Window          | tap_window           | set_tap_window           |
//! |        0x24 | THRESH_ACT      | activity_threshold   | set_activity_threshold   |
//! |        0x25 | THRESH_INACT    | inactivity_threshold | set_inactivity_threshold |
//! |        0x26 | TIME_INACT      | inactivity_time      | set_inactivity_time      |
//! |        0x27 | ACT_INACT_CTL   | activity_control     | set_activity_control     |
//! |        0x28 | THRESH_FF       | free_fall_threshold  | set_free_fall_threshold  |
//! |        0x29 | TIME_FF         | free_fall_time       | set_free_fall_time       |
//! |        0x2a | TAP_AXES        | tap_control          | set_tap_control          |
//! |        0x2b | ACT_TAP_STATUS  | activity_tap_status  | read-only                |
//! |        0x2c | BW_RATE         | bandwidth_rate       | set_bandwidth_rate       |
//! |        0x2d | POWER_CTL       | power_control        | set_power_control        |
//! |        0x2e | INT_ENABLE      | interrupt_control    | set_interrupt_control    |
//! |        0x2f | INT_MAP         | interrupt_map        | set_interrupt_map        |
//! |        0x30 | INT_SOURCE      | interrupt_source     | read-only                |
//! |        0x31 | DATA_FORMAT     | data_format          | set_data_format          |
//! | 0x32 - 0x37 | DATAX0 - DATAZ1 | acceleration         | read-only                |
//! |        0x38 | FIFO_CTL        | fifo_control         | set_fifo_control         |
//! |        0x39 | FIFO_STATUS     | fifo_status          | read-only                |

use crate::bits::within;
use crate::error::{AdxlError, AdxlResult};
use crate::fields::{BandwidthRateControl, DataFormat, FifoControl, FifoStatus, PowerControl};
use crate::flags::{ATStatus, ActivityMode, IntControlMode, IntMapMode, IntSource, TapMode};
use crate::register::{
    is_writable, ACT_INACT_CTL, ACT_TAP_STATUS, BW_RATE, DATA_FORMAT, DEVID, DUR, FIFO_CTL,
    FIFO_STATUS, INT_ENABLE, INT_MAP, INT_SOURCE, LATENT, OFSX, OFSY, OFSZ, POWER_CTL, TAP_AXES,
    THRESH_ACT, THRESH_FF, THRESH_INACT, THRESH_TAP, TIME_FF, TIME_INACT, WINDOW,
};
use crate::tap::{tap_of, Tap};
use crate::trace::{
    answer, axis_command, decoded_reply, lemma_read_one, lemma_reads_end, lemma_reads_start,
    lemma_reads_step, lemma_writes_end, lemma_writes_start, lemma_writes_step, raw, read_one,
    read_replies, read_run, refused, signed_reply, write_outcome, write_run, writes_done,
    wrote_one, zeroes, Traced, Transfer,
};
use crate::wire::{signed, to_signed, to_unsigned, unsigned};
use vstd::prelude::*;

verus! {

/// The writes of the initialization sequence, in order: the data format
/// with only the wiring bit, zero to the tap, offset, activity, inactivity
/// and free-fall registers, 100 Hz at normal power, zero to power control
/// and both interrupt registers, zero to FIFO control.
pub open spec fn init_sequence(three_wire: bool) -> Seq<(u8, u8)> {
    seq![(DATA_FORMAT, if three_wire { 0x40u8 } else { 0x00u8 })] + zeroes(THRESH_TAP, TAP_AXES)
        + seq![(BW_RATE, 0x0au8)] + zeroes(POWER_CTL, INT_MAP) + seq![(FIFO_CTL, 0x00u8)]
}

/// The writes that set the given axis offsets; an absent axis has none.
pub open spec fn offset_commands(x: Option<i8>, y: Option<i8>, z: Option<i8>) -> Seq<(u8, u8)> {
    axis_command(OFSX, x) + axis_command(OFSY, y) + axis_command(OFSZ, z)
}

/// Where each write of the initialization sequence stands in it.
pub proof fn lemma_init_sequence(three_wire: bool)
    ensures
        init_sequence(three_wire).len() == 20,
        init_sequence(three_wire)[0] == (DATA_FORMAT, if three_wire { 0x40u8 } else { 0x00u8 }),
        forall|i: int|
            1 <= i <= 14 ==> #[trigger] init_sequence(three_wire)[i] == (
                (THRESH_TAP + i - 1) as u8,
                0u8,
            ),
        init_sequence(three_wire)[15] == (BW_RATE, 0x0au8),
        forall|i: int|
            16 <= i <= 18 ==> #[trigger] init_sequence(three_wire)[i] == (
                (POWER_CTL + i - 16) as u8,
                0u8,
            ),
        init_sequence(three_wire)[19] == (FIFO_CTL, 0x00u8),
{
}

/// Initialization writes only to registers that take writes.
pub proof fn lemma_init_sequence_writable(three_wire: bool)
    ensures
        forall|i: int|
            0 <= i < init_sequence(three_wire).len() ==> is_writable(
                (#[trigger] init_sequence(three_wire)[i]).0,
            ),
{
    lemma_init_sequence(three_wire);
}

/// Where in the initialization sequence `register` is written.
pub open spec fn init_index(register: u8) -> int {
    if register == DATA_FORMAT {
        0
    } else if register <= TAP_AXES {
        1 + (register - THRESH_TAP)
    } else if register == BW_RATE {
        15
    } else if register <= INT_MAP {
        16 + (register - POWER_CTL)
    } else {
        19
    }
}

/// Initialization leaves no register that takes writes as it was: it writes
/// to each of them, and to each once.
pub proof fn lemma_init_sequence_complete(three_wire: bool)
    ensures
        forall|register: u8|
            is_writable(register) ==> 0 <= #[trigger] init_index(register) < init_sequence(
                three_wire,
            ).len() && init_sequence(three_wire)[init_index(register)].0 == register,
        forall|i: int|
            0 <= i < init_sequence(three_wire).len() ==> init_index(
                (#[trigger] init_sequence(three_wire)[i]).0,
            ) == i,
{
    lemma_init_sequence(three_wire);
}

/// Every register that the command set writes to takes writes: an illegal
/// write target cannot be named through a setter.
pub proof fn lemma_setters_write_writable(x: Option<i8>, y: Option<i8>, z: Option<i8>)
    ensures
        is_writable(THRESH_TAP),
        is_writable(OFSX),
        is_writable(OFSY),
        is_writable(OFSZ),
        is_writable(DUR),
        is_writable(LATENT),
        is_writable(WINDOW),
        is_writable(THRESH_ACT),
        is_writable(THRESH_INACT),
        is_writable(TIME_INACT),
        is_writable(ACT_INACT_CTL),
        is_writable(THRESH_FF),
        is_writable(TIME_FF),
        is_writable(TAP_AXES),
        is_writable(BW_RATE),
        is_writable(POWER_CTL),
        is_writable(INT_ENABLE),
        is_writable(INT_MAP),
        is_writable(DATA_FORMAT),
        is_writable(FIFO_CTL),
        forall|i: int|
            0 <= i < offset_commands(x, y, z).len() ==> is_writable(
                (#[trigger] offset_commands(x, y, z)[i]).0,
            ),
{
}

/// The complete command set: a device is always both read and written.
pub trait Adxl345: Adxl345Reader + Adxl345Writer {
}

/// The read half of the command set.
///
/// A binding provides `access` and `acceleration`; every other operation is
/// built on `access` and needs no change in a binding. Reading takes the
/// handle exclusively: a read is a bus transaction, and some registers
/// change by being read.
pub trait Adxl345Reader: Traced {
    /// Reads one byte from one register. Every getter but `acceleration`
    /// goes through this.
    fn access(&mut self, register: u8) -> (r: AdxlResult<u8>)
        ensures
            final(self).trace() == old(self).trace().push(Transfer::Read { register, reply: r }),
    ;

    /// Reads the X, Y and Z counts (4 mg/LSB at full resolution) in one
    /// transaction, so that the three belong to one measurement.
    fn acceleration(&mut self) -> (r: AdxlResult<(i16, i16, i16)>)
        ensures
            final(self).trace() == old(self).trace().push(Transfer::Burst { sample: r }),
    ;

    /// Reads the free-fall threshold and time, in this order. The two reads
    /// are separate transactions; the first that fails ends the operation.
    fn free_fall(&mut self) -> (r: AdxlResult<(u8, u8)>)
        ensures
            read_run(old(self).trace(), final(self).trace(), seq![THRESH_FF, TIME_FF]),
            r == match read_replies(old(self).trace(), final(self).trace()) {
                Ok(bytes) => Ok((bytes[0], bytes[1])),
                Err(e) => Err(e),
            },
    {
        let ghost start = self.trace();
        let ghost registers = seq![THRESH_FF, TIME_FF];
        proof {
            lemma_reads_start(start, registers);
        }
        let ghost mid = self.trace();
        let reply = self.free_fall_threshold();
        proof {
            lemma_reads_step(start, mid, self.trace(), registers, 0);
        }
        let thresh = match reply {
            Ok(v) => v,
            Err(e) => return Err(e),
        };
        let ghost mid = self.trace();
        let reply = self.free_fall_time();
        proof {
            lemma_reads_step(start, mid, self.trace(), registers, 1);
        }
        let time = match reply {
            Ok(v) => v,
            Err(e) => return Err(e),
        };
        let ghost bytes = seq![thresh, time];
        proof {
            lemma_reads_end(start, self.trace(), registers);
            assert(read_replies(start, self.trace())->Ok_0 =~= bytes);
        }
        Ok((thresh, time))
    }

    /// Reads the offsets of the X, Y and Z axes, in this order. The three
    /// reads are separate transactions; the first that fails ends the
    /// operation.
    fn offset_adjustment(&mut self) -> (r: AdxlResult<(i8, i8, i8)>)
        ensures
            read_run(old(self).trace(), final(self).trace(), seq![OFSX, OFSY, OFSZ]),
            r == match read_replies(old(self).trace(), final(self).trace()) {
                Ok(bytes) => Ok((signed(bytes[0]), signed(bytes[1]), signed(bytes[2]))),
                Err(e) => Err(e),
            },
    {
        let ghost start = self.trace();
        let ghost registers = seq![OFSX, OFSY, OFSZ];
        proof {
            lemma_reads_start(start, registers);
        }
        let ghost mid = self.trace();
        let reply = self.x_offset();
        proof {
            lemma_reads_step(start, mid, self.trace(), registers, 0);
        }
        let x = match reply {
            Ok(v) => v,
            Err(e) => return Err(e),
        };
        let ghost mid = self.trace();
        let reply = self.y_offset();
        proof {
            lemma_reads_step(start, mid, self.trace(), registers, 1);
        }
        let y = match reply {
            Ok(v) => v,
            Err(e) => return Err(e),
        };
        let ghost mid = self.trace();
        let reply = self.z_offset();
        proof {
            lemma_reads_step(start, mid, self.trace(), registers, 2);
        }
        let z = match reply {
            Ok(v) => v,
            Err(e) => return Err(e),
        };
        let ghost bytes = seq![unsigned(x), unsigned(y), unsigned(z)];
        proof {
            lemma_reads_end(start, self.trace(), registers);
            assert(read_replies(start, self.trace())->Ok_0 =~= bytes);
        }
        Ok((x, y, z))
    }

    /// Reads the tap threshold, duration, latency and window, in this order.
    /// The four reads are separate transactions; the first that fails ends
    /// the operation.
    fn tap(&mut self) -> (r: AdxlResult<Tap>)
        ensures
            read_run(old(self).trace(), final(self).trace(), seq![THRESH_TAP, DUR, LATENT, WINDOW]),
            r == match read_replies(old(self).trace(), final(self).trace()) {
                Ok(bytes) => Ok(tap_of(bytes)),
                Err(e) => Err(e),
            },
    {
        let ghost start = self.trace();
        let ghost registers = seq![THRESH_TAP, DUR, LATENT, WINDOW];
        proof {
            lemma_reads_start(start, registers);
        }
        let ghost mid = self.trace();
        let reply = self.tap_threshold();
        proof {
            lemma_reads_step(start, mid, self.trace(), registers, 0);
        }
        let threshold = match reply {
            Ok(v) => v,
            Err(e) => return Err(e),
        };
        let ghost mid = self.trace();
        let reply = self.tap_duration();
        proof {
            lemma_reads_step(start, mid, self.trace(), registers, 1);
        }
        let duration = match reply {
            Ok(v) => v,
            Err(e) => return Err(e),
        };
        let ghost mid = self.trace();
        let reply = self.tap_latency();
        proof {
            lemma_reads_step(start, mid, self.trace(), registers, 2);
        }
        let latency = match reply {
            Ok(v) => v,
            Err(e) => return Err(e),
        };
        let ghost mid = self.trace();
        let reply = self.tap_window();
        proof {
            lemma_reads_step(start, mid, self.trace(), registers, 3);
        }
        let window = match reply {
            Ok(v) => v,
            Err(e) => return Err(e),
        };
        let ghost bytes = seq![threshold, duration, latency, window];
        proof {
            lemma_reads_end(start, self.trace(), registers);
            assert(read_replies(start, self.trace())->Ok_0 =~= bytes);
        }
        Ok(Tap::new(threshold, duration, latency, window))
    }

    /// Reads which axes take part in activity and inactivity detection.
    fn activity_control(&mut self) -> (r: AdxlResult<ActivityMode>)
        ensures
            read_one(old(self).trace(), final(self).trace(), ACT_INACT_CTL),
            raw(r) == decoded_reply(ActivityMode::MASK, answer(final(self).trace())),
    {
        let ghost before = self.trace();
        let reply = self.access(ACT_INACT_CTL);
        proof {
            lemma_read_one(before, ACT_INACT_CTL, reply);
        }
        match reply {
            Ok(byte) => match ActivityMode::from_bits(byte) {
                Some(mode) => Ok(mode),
                None => Err(AdxlError::UnknownModeBit(byte)),
            },
            Err(e) => Err(e),
        }
    }

    /// Reads the activity threshold (62.5 mg/LSB).
    fn activity_threshold(&mut self) -> (r: AdxlResult<u8>)
        ensures
            read_one(old(self).trace(), final(self).trace(), THRESH_ACT),
            r == answer(final(self).trace()),
    {
        let ghost before = self.trace();
        let reply = self.access(THRESH_ACT);
        proof {
            lemma_read_one(before, THRESH_ACT, reply);
        }
        reply
    }

    /// Reads which axes caused the latest tap or activity event. Read it
    /// before clearing the interrupt.
    fn activity_tap_status(&mut self) -> (r: AdxlResult<ATStatus>)
        ensures
            read_one(old(self).trace(), final(self).trace(), ACT_TAP_STATUS),
            raw(r) == decoded_reply(ATStatus::MASK, answer(final(self).trace())),
    {
        let ghost before = self.trace();
        let reply = self.access(ACT_TAP_STATUS);
        proof {
            lemma_read_one(before, ACT_TAP_STATUS, reply);
        }
        match reply {
            Ok(byte) => match ATStatus::from_bits(byte) {
                Some(mode) => Ok(mode),
                None => Err(AdxlError::UnknownModeBit(byte)),
            },
            Err(e) => Err(e),
        }
    }

    /// Reads the data rate and power mode.
    fn bandwidth_rate(&mut self) -> (r: AdxlResult<BandwidthRateControl>)
        ensures
            read_one(old(self).trace(), final(self).trace(), BW_RATE),
            raw(r) == decoded_reply(BandwidthRateControl::MASK, answer(final(self).trace())),
    {
        let ghost before = self.trace();
        let reply = self.access(BW_RATE);
        proof {
            lemma_read_one(before, BW_RATE, reply);
        }
        match reply {
            Ok(byte) => BandwidthRateControl::try_from(byte),
            Err(e) => Err(e),
        }
    }

    /// Reads the data format.
    fn data_format(&mut self) -> (r: AdxlResult<DataFormat>)
        ensures
            read_one(old(self).trace(), final(self).trace(), DATA_FORMAT),
            raw(r) == decoded_reply(DataFormat::MASK, answer(final(self).trace())),
    {
        let ghost before = self.trace();
        let reply = self.access(DATA_FORMAT);
        proof {
            lemma_read_one(before, DATA_FORMAT, reply);
        }
        match reply {
            Ok(byte) => DataFormat::try_from(byte),
            Err(e) => Err(e),
        }
    }

    /// Reads the device ID.
    fn device_id(&mut self) -> (r: AdxlResult<u8>)
        ensures
            read_one(old(self).trace(), final(self).trace(), DEVID),
            r == answer(final(self).trace()),
    {
        let ghost before = self.trace();
        let reply = self.access(DEVID);
        proof {
            lemma_read_one(before, DEVID, reply);
        }
        reply
    }

    /// Reads the free-fall threshold (62.5 mg/LSB).
    fn free_fall_threshold(&mut self) -> (r: AdxlResult<u8>)
        ensures
            read_one(old(self).trace(), final(self).trace(), THRESH_FF),
            r == answer(final(self).trace()),
    {
        let ghost before = self.trace();
        let reply = self.access(THRESH_FF);
        proof {
            lemma_read_one(before, THRESH_FF, reply);
        }
        reply
    }

    /// Reads the free-fall time (5 ms/LSB).
    fn free_fall_time(&mut self) -> (r: AdxlResult<u8>)
        ensures
            read_one(old(self).trace(), final(self).trace(), TIME_FF),
            r == answer(final(self).trace()),
    {
        let ghost before = self.trace();
        let reply = self.access(TIME_FF);
        proof {
            lemma_read_one(before, TIME_FF, reply);
        }
        reply
    }

    /// Reads the FIFO control. Every byte is a valid value of it.
    fn fifo_control(&mut self) -> (r: AdxlResult<FifoControl>)
        ensures
            read_one(old(self).trace(), final(self).trace(), FIFO_CTL),
            raw(r) == answer(final(self).trace()),
    {
        let ghost before = self.trace();
        let reply = self.access(FIFO_CTL);
        proof {
            lemma_read_one(before, FIFO_CTL, reply);
        }
        match reply {
            Ok(byte) => Ok(FifoControl { byte }),
            Err(e) => Err(e),
        }
    }

    /// Reads the FIFO status.
    fn fifo_status(&mut self) -> (r: AdxlResult<FifoStatus>)
        ensures
            read_one(old(self).trace(), final(self).trace(), FIFO_STATUS),
            raw(r) == decoded_reply(FifoStatus::MASK, answer(final(self).trace())),
    {
        let ghost before = self.trace();
        let reply = self.access(FIFO_STATUS);
        proof {
            lemma_read_one(before, FIFO_STATUS, reply);
        }
        match reply {
            Ok(byte) => FifoStatus::try_from(byte),
            Err(e) => Err(e),
        }
    }

    /// Reads the inactivity threshold (62.5 mg/LSB).
    fn inactivity_threshold(&mut self) -> (r: AdxlResult<u8>)
        ensures
            read_one(old(self).trace(), final(self).trace(), THRESH_INACT),
            r == answer(final(self).trace()),
    {
        let ghost before = self.trace();
        let reply = self.access(THRESH_INACT);
        proof {
            lemma_read_one(before, THRESH_INACT, reply);
        }
        reply
    }

    /// Reads the inactivity time (1 s/LSB).
    fn inactivity_time(&mut self) -> (r: AdxlResult<u8>)
        ensures
            read_one(old(self).trace(), final(self).trace(), TIME_INACT),
            r == answer(final(self).trace()),
    {
        let ghost before = self.trace();
        let reply = self.access(TIME_INACT);
        proof {
            lemma_read_one(before, TIME_INACT, reply);
        }
        reply
    }

    /// Reads which interrupts are enabled.
    fn interrupt_control(&mut self) -> (r: AdxlResult<IntControlMode>)
        ensures
            read_one(old(self).trace(), final(self).trace(), INT_ENABLE),
            raw(r) == decoded_reply(IntControlMode::MASK, answer(final(self).trace())),
    {
        let ghost before = self.trace();
        let reply = self.access(INT_ENABLE);
        proof {
            lemma_read_one(before, INT_ENABLE, reply);
        }
        match reply {
            Ok(byte) => match IntControlMode::from_bits(byte) {
                Some(mode) => Ok(mode),
                None => Err(AdxlError::UnknownModeBit(byte)),
            },
            Err(e) => Err(e),
        }
    }

    /// Reads which pin each interrupt goes to.
    fn interrupt_map(&mut self) -> (r: AdxlResult<IntMapMode>)
        ensures
            read_one(old(self).trace(), final(self).trace(), INT_MAP),
            raw(r) == decoded_reply(IntMapMode::MASK, answer(final(self).trace())),
    {
        let ghost before = self.trace();
        let reply = self.access(INT_MAP);
        proof {
            lemma_read_one(before, INT_MAP, reply);
        }
        match reply {
            Ok(byte) => match IntMapMode::from_bits(byte) {
                Some(mode) => Ok(mode),
                None => Err(AdxlError::UnknownModeBit(byte)),
            },
            Err(e) => Err(e),
        }
    }

    /// Reads which events have occurred.
    fn interrupt_source(&mut self) -> (r: AdxlResult<IntSource>)
        ensures
            read_one(old(self).trace(), final(self).trace(), INT_SOURCE),
            raw(r) == decoded_reply(IntSource::MASK, answer(final(self).trace())),
    {
        let ghost before = self.trace();
        let reply = self.access(INT_SOURCE);
        proof {
            lemma_read_one(before, INT_SOURCE, reply);
        }
        match reply {
            Ok(byte) => match IntSource::from_bits(byte) {
                Some(mode) => Ok(mode),
                None => Err(AdxlError::UnknownModeBit(byte)),
            },
            Err(e) => Err(e),
        }
    }

    /// Reads the power-saving features.
    fn power_control(&mut self) -> (r: AdxlResult<PowerControl>)
        ensures
            read_one(old(self).trace(), final(self).trace(), POWER_CTL),
            raw(r) == decoded_reply(PowerControl::MASK, answer(final(self).trace())),
    {
        let ghost before = self.trace();
        let reply = self.access(POWER_CTL);
        proof {
            lemma_read_one(before, POWER_CTL, reply);
        }
        match reply {
            Ok(byte) => PowerControl::try_from(byte),
            Err(e) => Err(e),
        }
    }

    /// Reads which axes take part in tap detection.
    fn tap_control(&mut self) -> (r: AdxlResult<TapMode>)
        ensures
            read_one(old(self).trace(), final(self).trace(), TAP_AXES),
            raw(r) == decoded_reply(TapMode::MASK, answer(final(self).trace())),
    {
        let ghost before = self.trace();
        let reply = self.access(TAP_AXES);
        proof {
            lemma_read_one(before, TAP_AXES, reply);
        }
        match reply {
            Ok(byte) => match TapMode::from_bits(byte) {
                Some(mode) => Ok(mode),
                None => Err(AdxlError::UnknownModeBit(byte)),
            },
            Err(e) => Err(e),
        }
    }

    /// Reads the tap duration (625 µs/LSB).
    fn tap_duration(&mut self) -> (r: AdxlResult<u8>)
        ensures
            read_one(old(self).trace(), final(self).trace(), DUR),
            r == answer(final(self).trace()),
    {
        let ghost before = self.trace();
        let reply = self.access(DUR);
        proof {
            lemma_read_one(before, DUR, reply);
        }
        reply
    }

    /// Reads the tap latency (1.25 ms/LSB).
    fn tap_latency(&mut self) -> (r: AdxlResult<u8>)
        ensures
            read_one(old(self).trace(), final(self).trace(), LATENT),
            r == answer(final(self).trace()),
    {
        let ghost before = self.trace();
        let reply = self.access(LATENT);
        proof {
            lemma_read_one(before, LATENT, reply);
        }
        reply
    }

    /// Reads the tap threshold (62.5 mg/LSB).
    fn tap_threshold(&mut self) -> (r: AdxlResult<u8>)
        ensures
            read_one(old(self).trace(), final(self).trace(), THRESH_TAP),
            r == answer(final(self).trace()),
    {
        let ghost before = self.trace();
        let reply = self.access(THRESH_TAP);
        proof {
            lemma_read_one(before, THRESH_TAP, reply);
        }
        reply
    }

    /// Reads the tap window (1.25 ms/LSB).
    fn tap_window(&mut self) -> (r: AdxlResult<u8>)
        ensures
            read_one(old(self).trace(), final(self).trace(), WINDOW),
            r == answer(final(self).trace()),
    {
        let ghost before = self.trace();
        let reply = self.access(WINDOW);
        proof {
            lemma_read_one(before, WINDOW, reply);
        }
        reply
    }

    /// Reads the X-axis offset (15.6 mg/LSB, two's complement).
    fn x_offset(&mut self) -> (r: AdxlResult<i8>)
        ensures
            read_one(old(self).trace(), final(self).trace(), OFSX),
            r == signed_reply(answer(final(self).trace())),
    {
        let ghost before = self.trace();
        let reply = self.access(OFSX);
        proof {
            lemma_read_one(before, OFSX, reply);
        }
        match reply {
            Ok(byte) => Ok(to_signed(byte)),
            Err(e) => Err(e),
        }
    }

    /// Reads the Y-axis offset (15.6 mg/LSB, two's complement).
    fn y_offset(&mut self) -> (r: AdxlResult<i8>)
        ensures
            read_one(old(self).trace(), final(self).trace(), OFSY),
            r == signed_reply(answer(final(self).trace())),
    {
        let ghost before = self.trace();
        let reply = self.access(OFSY);
        proof {
            lemma_read_one(before, OFSY, reply);
        }
        match reply {
            Ok(byte) => Ok(to_signed(byte)),
            Err(e) => Err(e),
        }
    }

    /// Reads the Z-axis offset (15.6 mg/LSB, two's complement).
    fn z_offset(&mut self) -> (r: AdxlResult<i8>)
        ensures
            read_one(old(self).trace(), final(self).trace(), OFSZ),
            r == signed_reply(answer(final(self).trace())),
    {
        let ghost before = self.trace();
        let reply = self.access(OFSZ);
        proof {
            lemma_read_one(before, OFSZ, reply);
        }
        match reply {
            Ok(byte) => Ok(to_signed(byte)),
            Err(e) => Err(e),
        }
    }
}

/// The write half of the command set.
///
/// A binding provides `command` and `init`; every other operation is built
/// on `command` and needs no change in a binding. There is a setter for each
/// register that takes writes, and none for the others.
pub trait Adxl345Writer: Traced {
    /// Writes one byte to one register. Every setter goes through this.
    fn command(&mut self, register: u8, byte: u8) -> (r: AdxlResult<()>)
        ensures
            wrote_one(old(self).trace(), final(self).trace(), register, byte, r),
    ;

    /// Returns the device to its known initial state: the initialization
    /// sequence, for the wiring that the binding stands for.
    fn init(&mut self) -> (r: AdxlResult<()>)
        ensures
            write_run(old(self).trace(), final(self).trace(), init_sequence(false)) || write_run(
                old(self).trace(),
                final(self).trace(),
                init_sequence(true),
            ),
            r == write_outcome(old(self).trace(), final(self).trace()),
    ;

    /// Sets the inactivity threshold (62.5 mg/LSB), then the inactivity time
    /// (1 s/LSB). If the first write fails the second is not issued.
    fn set_inactivity(&mut self, thresh: u8, time: u8) -> (r: AdxlResult<()>)
        ensures
            write_run(
                old(self).trace(),
                final(self).trace(),
                seq![
                    (THRESH_INACT, thresh),
                    (TIME_INACT, time),
                ],
            ),
            r == write_outcome(old(self).trace(), final(self).trace()),
    {
        let ghost start = self.trace();
        let ghost commands = seq![
            (THRESH_INACT, thresh),
            (TIME_INACT, time),
        ];
        proof {
            lemma_writes_start(start, commands);
        }
        let ghost mid = self.trace();
        let r = self.set_inactivity_threshold(thresh);
        proof {
            lemma_writes_step(start, mid, self.trace(), commands, 0, r);
        }
        if r.is_err() {
            return r;
        }
        let ghost mid = self.trace();
        let r = self.set_inactivity_time(time);
        proof {
            lemma_writes_step(start, mid, self.trace(), commands, 1, r);
        }
        if r.is_err() {
            return r;
        }
        proof {
            lemma_writes_end(start, self.trace(), commands);
        }
        Ok(())
    }

    /// Sets the free-fall threshold (62.5 mg/LSB), then the free-fall time
    /// (5 ms/LSB). If the first write fails the second is not issued.
    fn set_free_fall(&mut self, thresh: u8, time: u8) -> (r: AdxlResult<()>)
        ensures
            write_run(
                old(self).trace(),
                final(self).trace(),
                seq![
                    (THRESH_FF, thresh),
                    (TIME_FF, time),
                ],
            ),
            r == write_outcome(old(self).trace(), final(self).trace()),
    {
        let ghost start = self.trace();
        let ghost commands = seq![
            (THRESH_FF, thresh),
            (TIME_FF, time),
        ];
        proof {
            lemma_writes_start(start, commands);
        }
        let ghost mid = self.trace();
        let r = self.set_free_fall_threshold(thresh);
        proof {
            lemma_writes_step(start, mid, self.trace(), commands, 0, r);
        }
        if r.is_err() {
            return r;
        }
        let ghost mid = self.trace();
        let r = self.set_free_fall_time(time);
        proof {
            lemma_writes_step(start, mid, self.trace(), commands, 1, r);
        }
        if r.is_err() {
            return r;
        }
        proof {
            lemma_writes_end(start, self.trace(), commands);
        }
        Ok(())
    }

    /// Sets which axes take part in activity and inactivity detection.
    fn set_activity_control(&mut self, mode: ActivityMode) -> (r: AdxlResult<()>)
        ensures
            wrote_one(old(self).trace(), final(self).trace(), ACT_INACT_CTL, mode@, r),
    {
        self.command(ACT_INACT_CTL, mode.bits())
    }

    /// Sets the activity threshold (62.5 mg/LSB).
    fn set_activity_threshold(&mut self, thresh: u8) -> (r: AdxlResult<()>)
        ensures
            wrote_one(old(self).trace(), final(self).trace(), THRESH_ACT, thresh, r),
    {
        self.command(THRESH_ACT, thresh)
    }

    /// Sets the data rate and power mode from a raw byte.
    ///
    /// The byte is checked against the register's mask first: one with an
    /// undefined bit is refused before anything reaches the bus.
    fn set_bandwidth_rate(&mut self, mode: u8) -> (r: AdxlResult<()>)
        ensures
            if within(BandwidthRateControl::MASK, mode) {
                wrote_one(old(self).trace(), final(self).trace(), BW_RATE, mode, r)
            } else {
                refused(old(self).trace(), final(self).trace(), mode, r)
            },
    {
        match BandwidthRateControl::try_from(mode) {
            Ok(value) => self.command(BW_RATE, value.byte()),
            Err(e) => Err(e),
        }
    }

    /// Sets the data format from a raw byte.
    ///
    /// The byte is checked against the register's mask first: one with an
    /// undefined bit is refused before anything reaches the bus.
    fn set_data_format(&mut self, mode: u8) -> (r: AdxlResult<()>)
        ensures
            if within(DataFormat::MASK, mode) {
                wrote_one(old(self).trace(), final(self).trace(), DATA_FORMAT, mode, r)
            } else {
                refused(old(self).trace(), final(self).trace(), mode, r)
            },
    {
        match DataFormat::try_from(mode) {
            Ok(value) => self.command(DATA_FORMAT, value.byte()),
            Err(e) => Err(e),
        }
    }

    /// Sets the free-fall threshold (62.5 mg/LSB). Values from 0x05 to 0x09
    /// are recommended.
    fn set_free_fall_threshold(&mut self, thresh: u8) -> (r: AdxlResult<()>)
        ensures
            wrote_one(old(self).trace(), final(self).trace(), THRESH_FF, thresh, r),
    {
        self.command(THRESH_FF, thresh)
    }

    /// Sets the free-fall time (5 ms/LSB). Values from 0x14 to 0x46 are
    /// recommended.
    fn set_free_fall_time(&mut self, time: u8) -> (r: AdxlResult<()>)
        ensures
            wrote_one(old(self).trace(), final(self).trace(), TIME_FF, time, r),
    {
        self.command(TIME_FF, time)
    }

    /// Sets the FIFO control.
    fn set_fifo_control(&mut self, mode: FifoControl) -> (r: AdxlResult<()>)
        ensures
            wrote_one(old(self).trace(), final(self).trace(), FIFO_CTL, mode@, r),
    {
        self.command(FIFO_CTL, mode.byte())
    }

    /// Sets the inactivity threshold (62.5 mg/LSB).
    fn set_inactivity_threshold(&mut self, thresh: u8) -> (r: AdxlResult<()>)
        ensures
            wrote_one(old(self).trace(), final(self).trace(), THRESH_INACT, thresh, r),
    {
        self.command(THRESH_INACT, thresh)
    }

    /// Sets the inactivity time (1 s/LSB).
    fn set_inactivity_time(&mut self, time: u8) -> (r: AdxlResult<()>)
        ensures
            wrote_one(old(self).trace(), final(self).trace(), TIME_INACT, time, r),
    {
        self.command(TIME_INACT, time)
    }

    /// Sets which interrupts are enabled.
    fn set_interrupt_control(&mut self, mode: IntControlMode) -> (r: AdxlResult<()>)
        ensures
            wrote_one(old(self).trace(), final(self).trace(), INT_ENABLE, mode@, r),
    {
        self.command(INT_ENABLE, mode.bits())
    }

    /// Sets which pin each interrupt goes to.
    fn set_interrupt_map(&mut self, mode: IntMapMode) -> (r: AdxlResult<()>)
        ensures
            wrote_one(old(self).trace(), final(self).trace(), INT_MAP, mode@, r),
    {
        self.command(INT_MAP, mode.bits())
    }

    /// Sets the offsets of the axes that are given, X before Y before Z,
    /// each in its own register. An axis that is `None` is left as it is: no
    /// write is issued for it. The first write that fails ends the
    /// operation, and the axes after it are not written.
    fn set_offset_adjustment(&mut self, x: Option<i8>, y: Option<i8>, z: Option<i8>) -> (r:
        AdxlResult<()>)
        ensures
            write_run(old(self).trace(), final(self).trace(), offset_commands(x, y, z)),
            r == write_outcome(old(self).trace(), final(self).trace()),
    {
        let ghost start = self.trace();
        let ghost commands = offset_commands(x, y, z);
        let ghost mut k: int = 0;
        proof {
            lemma_writes_start(start, commands);
        }
        if let Some(x) = x {
            let ghost mid = self.trace();
            let r = self.set_x_offset(x);
            proof {
                lemma_writes_step(start, mid, self.trace(), commands, k, r);
                k = k + 1;
            }
            if r.is_err() {
                return r;
            }
        }
        if let Some(y) = y {
            let ghost mid = self.trace();
            let r = self.set_y_offset(y);
            proof {
                lemma_writes_step(start, mid, self.trace(), commands, k, r);
                k = k + 1;
            }
            if r.is_err() {
                return r;
            }
        }
        if let Some(z) = z {
            let ghost mid = self.trace();
            let r = self.set_z_offset(z);
            proof {
                lemma_writes_step(start, mid, self.trace(), commands, k, r);
                k = k + 1;
            }
            if r.is_err() {
                return r;
            }
        }
        proof {
            lemma_writes_end(start, self.trace(), commands);
        }
        Ok(())
    }

    /// Sets the power-saving features from a raw byte.
    ///
    /// The byte is checked against the register's mask first: one with an
    /// undefined bit is refused before anything reaches the bus.
    fn set_power_control(&mut self, mode: u8) -> (r: AdxlResult<()>)
        ensures
            if within(PowerControl::MASK, mode) {
                wrote_one(old(self).trace(), final(self).trace(), POWER_CTL, mode, r)
            } else {
                refused(old(self).trace(), final(self).trace(), mode, r)
            },
    {
        match PowerControl::try_from(mode) {
            Ok(value) => self.command(POWER_CTL, value.byte()),
            Err(e) => Err(e),
        }
    }

    /// Sets the tap threshold, duration, latency and window, in this order.
    /// The first write that fails ends the operation, and the registers
    /// after it keep their old values.
    fn set_tap(&mut self, tap: Tap) -> (r: AdxlResult<()>)
        ensures
            write_run(
                old(self).trace(),
                final(self).trace(),
                seq![
                    (THRESH_TAP, tap.threshold),
                    (DUR, tap.duration),
                    (LATENT, tap.latency),
                    (WINDOW, tap.window),
                ],
            ),
            r == write_outcome(old(self).trace(), final(self).trace()),
    {
        let ghost start = self.trace();
        let ghost commands = seq![
            (THRESH_TAP, tap.threshold),
            (DUR, tap.duration),
            (LATENT, tap.latency),
            (WINDOW, tap.window),
        ];
        proof {
            lemma_writes_start(start, commands);
        }
        let ghost mid = self.trace();
        let r = self.set_tap_threshold(tap.threshold);
        proof {
            lemma_writes_step(start, mid, self.trace(), commands, 0, r);
        }
        if r.is_err() {
            return r;
        }
        let ghost mid = self.trace();
        let r = self.set_tap_duration(tap.duration);
        proof {
            lemma_writes_step(start, mid, self.trace(), commands, 1, r);
        }
        if r.is_err() {
            return r;
        }
        let ghost mid = self.trace();
        let r = self.set_tap_latency(tap.latency);
        proof {
            lemma_writes_step(start, mid, self.trace(), commands, 2, r);
        }
        if r.is_err() {
            return r;
        }
        let ghost mid = self.trace();
        let r = self.set_tap_window(tap.window);
        proof {
            lemma_writes_step(start, mid, self.trace(), commands, 3, r);
        }
        if r.is_err() {
            return r;
        }
        proof {
            lemma_writes_end(start, self.trace(), commands);
        }
        Ok(())
    }

    /// Sets which axes take part in tap detection.
    fn set_tap_control(&mut self, mode: TapMode) -> (r: AdxlResult<()>)
        ensures
            wrote_one(old(self).trace(), final(self).trace(), TAP_AXES, mode@, r),
    {
        self.command(TAP_AXES, mode.bits())
    }

    /// Sets the tap duration (625 µs/LSB). 0 disables tap detection.
    fn set_tap_duration(&mut self, duration: u8) -> (r: AdxlResult<()>)
        ensures
            wrote_one(old(self).trace(), final(self).trace(), DUR, duration, r),
    {
        self.command(DUR, duration)
    }

    /// Sets the tap latency (1.25 ms/LSB). 0 disables double tap detection.
    fn set_tap_latency(&mut self, latency: u8) -> (r: AdxlResult<()>)
        ensures
            wrote_one(old(self).trace(), final(self).trace(), LATENT, latency, r),
    {
        self.command(LATENT, latency)
    }

    /// Sets the tap threshold (62.5 mg/LSB).
    fn set_tap_threshold(&mut self, threshold: u8) -> (r: AdxlResult<()>)
        ensures
            wrote_one(old(self).trace(), final(self).trace(), THRESH_TAP, threshold, r),
    {
        self.command(THRESH_TAP, threshold)
    }

    /// Sets the tap window (1.25 ms/LSB). 0 disables double tap detection.
    fn set_tap_window(&mut self, window: u8) -> (r: AdxlResult<()>)
        ensures
            wrote_one(old(self).trace(), final(self).trace(), WINDOW, window, r),
    {
        self.command(WINDOW, window)
    }

    /// Sets the X-axis offset (15.6 mg/LSB, two's complement).
    fn set_x_offset(&mut self, x: i8) -> (r: AdxlResult<()>)
        ensures
            wrote_one(old(self).trace(), final(self).trace(), OFSX, unsigned(x), r),
    {
        self.command(OFSX, to_unsigned(x))
    }

    /// Sets the Y-axis offset (15.6 mg/LSB, two's complement).
    fn set_y_offset(&mut self, y: i8) -> (r: AdxlResult<()>)
        ensures
            wrote_one(old(self).trace(), final(self).trace(), OFSY, unsigned(y), r),
    {
        self.command(OFSY, to_unsigned(y))
    }

    /// Sets the Z-axis offset (15.6 mg/LSB, two's complement).
    fn set_z_offset(&mut self, z: i8) -> (r: AdxlResult<()>)
        ensures
            wrote_one(old(self).trace(), final(self).trace(), OFSZ, unsigned(z), r),
    {
        self.command(OFSZ, to_unsigned(z))
    }
}

/// The initialization sequence, for bindings to build `init` on.
pub trait Adxl345Init: Adxl345Writer {
    /// Writes the initialization sequence; `spi_3wire` tells the device
    /// which serial wiring to expect. The first write that fails ends the
    /// sequence, and nothing is rolled back.
    fn init_registers(&mut self, spi_3wire: bool) -> (r: AdxlResult<()>)
        ensures
            write_run(old(self).trace(), final(self).trace(), init_sequence(spi_3wire)),
            r == write_outcome(old(self).trace(), final(self).trace()),
    {
        let ghost start = self.trace();
        let ghost commands = init_sequence(spi_3wire);
        proof {
            lemma_init_sequence(spi_3wire);
            lemma_writes_start(start, commands);
        }
        let format: u8 = if spi_3wire {
            0x40
        } else {
            0x00
        };
        let ghost mid = self.trace();
        let r = self.command(DATA_FORMAT, format);
        proof {
            lemma_writes_step(start, mid, self.trace(), commands, 0, r);
        }
        if r.is_err() {
            return r;
        }
        let mut register: u8 = THRESH_TAP;
        while register <= TAP_AXES
            invariant
                THRESH_TAP <= register <= TAP_AXES + 1,
                start == old(self).trace(),
                commands == init_sequence(spi_3wire),
                writes_done(start, self.trace(), commands, 1 + (register - THRESH_TAP)),
            decreases TAP_AXES + 1 - register,
        {
            let ghost mid = self.trace();
            let r = self.command(register, 0);
            proof {
                lemma_init_sequence(spi_3wire);
                lemma_writes_step(
                    start,
                    mid,
                    self.trace(),
                    commands,
                    1 + (register - THRESH_TAP),
                    r,
                );
            }
            if r.is_err() {
                return r;
            }
            register = register + 1;
        }
        let ghost mid = self.trace();
        let r = self.command(BW_RATE, 0x0a);
        proof {
            lemma_writes_step(start, mid, self.trace(), commands, 15, r);
        }
        if r.is_err() {
            return r;
        }
        let mut register: u8 = POWER_CTL;
        while register <= INT_MAP
            invariant
                POWER_CTL <= register <= INT_MAP + 1,
                start == old(self).trace(),
                commands == init_sequence(spi_3wire),
                writes_done(start, self.trace(), commands, 16 + (register - POWER_CTL)),
            decreases INT_MAP + 1 - register,
        {
            let ghost mid = self.trace();
            let r = self.command(register, 0);
            proof {
                lemma_init_sequence(spi_3wire);
                lemma_writes_step(
                    start,
                    mid,
                    self.trace(),
                    commands,
                    16 + (register - POWER_CTL),
                    r,
                );
            }
            if r.is_err() {
                return r;
            }
            register = register + 1;
        }
        let ghost mid = self.trace();
        let r = self.command(FIFO_CTL, 0x00);
        proof {
            lemma_writes_step(start, mid, self.trace(), commands, 19, r);
        }
        if r.is_err() {
            return r;
        }
        proof {
            lemma_writes_end(start, self.trace(), commands);
        }
        Ok(())
    }
}

} // verus!
