//! The control and status registers that pack several fields into one byte.
//!
//! Each type wraps the raw byte of its register. A byte is accepted only if
//! every bit it sets is one the register defines; the accessors then read
//! and write the fields at their fixed bit positions.

use crate::bits::{
    check_mask, decoded, encoded, field_mask, field_of, flag, get_bit, get_field, has_bit,
    lemma_field_max, lemma_field_stays_within, put_bit, put_field, with_field, within,
};
use crate::error::{AdxlError, AdxlResult};
use vstd::prelude::*;

verus! {

/// Data rate and power mode control (`BW_RATE`).
///
/// | Field       | Bits | Meaning                                         |
/// | ----------- | ---: | ----------------------------------------------- |
/// | `low_power` |    4 | reduced power operation, at somewhat more noise |
/// | `rate`      |  0-3 | output data rate code                           |
///
/// The rate code `0b1010` selects 100 Hz; each step up doubles the rate, each
/// step down halves it, from 0.10 Hz (`0b0000`) to 3200 Hz (`0b1111`). The
/// low-power bit lowers consumption only for the codes `0b0111` to `0b1100`.
#[derive(Debug, Clone, Copy, PartialEq, Eq)]
pub struct BandwidthRateControl {
    byte: u8,
}

impl View for BandwidthRateControl {
    type V = u8;

    closed spec fn view(&self) -> u8 {
        self.byte
    }
}

impl BandwidthRateControl {
    /// The bits that the register defines.
    pub const MASK: u8 = 0x1f;

    #[verifier::type_invariant]
    spec fn defined_bits_only(self) -> bool {
        within(Self::MASK, self.byte)
    }

    /// Decodes a raw register byte; one with a bit outside the mask is refused.
    pub fn try_from(value: u8) -> (r: AdxlResult<Self>)
        ensures
            match r {
                Ok(v) => decoded(Self::MASK, value) == Ok::<u8, AdxlError>(v@),
                Err(e) => decoded(Self::MASK, value) == Err::<u8, AdxlError>(e),
            },
    {
        match check_mask(Self::MASK, value) {
            Ok(byte) => Ok(BandwidthRateControl { byte }),
            Err(e) => Err(e),
        }
    }

    /// The raw register byte.
    pub fn byte(&self) -> (b: u8)
        ensures
            b == encoded(self@),
            within(Self::MASK, b),
    {
        proof {
            use_type_invariant(self);
        }
        self.byte
    }

    /// Whether reduced power operation is selected.
    pub fn low_power(&self) -> (on: bool)
        ensures
            on == has_bit(self@, 4),
    {
        get_bit(self.byte, 4)
    }

    /// Selects or clears reduced power operation.
    pub fn set_low_power(&mut self, on: bool)
        ensures
            final(self)@ == with_field(old(self)@, 4, 1, flag(on)),
    {
        proof {
            use_type_invariant(&*self);
            Self::lemma_fields_in_mask();
            lemma_field_stays_within(Self::MASK, self.byte, 4, 1, flag(on));
        }
        self.byte = put_bit(self.byte, 4, on);
    }

    /// The output data rate code.
    pub fn rate(&self) -> (v: u8)
        ensures
            v == field_of(self@, 0, 4),
            v <= 0x0f,
    {
        proof {
            lemma_field_max();
        }
        get_field(self.byte, 0, 4)
    }

    /// Sets the output data rate code. Bits of `value` above the field's width are dropped.
    pub fn set_rate(&mut self, value: u8)
        ensures
            final(self)@ == with_field(old(self)@, 0, 4, value),
    {
        proof {
            use_type_invariant(&*self);
            Self::lemma_fields_in_mask();
            lemma_field_stays_within(Self::MASK, self.byte, 0, 4, value);
        }
        self.byte = put_field(self.byte, 0, 4, value);
    }

    /// Every field of the register lies inside its mask.
    proof fn lemma_fields_in_mask()
        by (bit_vector)
        ensures
            within(0x1f, field_mask(4, 1)),
            within(0x1f, field_mask(0, 4)),
    {
    }
}

/// Data format control (`DATA_FORMAT`). Bit 4 is not defined.
///
/// | Field        | Bits | Meaning                                            |
/// | ------------ | ---: | -------------------------------------------------- |
/// | `self_test`  |    7 | a self-test force is applied to the sensor         |
/// | `spi`        |    6 | 3-wire serial mode; 4-wire when clear              |
/// | `int_invert` |    5 | interrupts are active low; active high when clear  |
/// | `full_res`   |    3 | full resolution; 10-bit mode when clear            |
/// | `justify`    |    2 | left-justified data; right-justified when clear    |
/// | `range`      |  0-1 | g range: ±2 g, ±4 g, ±8 g or ±16 g                 |
#[derive(Debug, Clone, Copy, PartialEq, Eq)]
pub struct DataFormat {
    byte: u8,
}

impl View for DataFormat {
    type V = u8;

    closed spec fn view(&self) -> u8 {
        self.byte
    }
}

impl DataFormat {
    /// The bits that the register defines.
    pub const MASK: u8 = 0xef;

    #[verifier::type_invariant]
    spec fn defined_bits_only(self) -> bool {
        within(Self::MASK, self.byte)
    }

    /// Decodes a raw register byte; one with a bit outside the mask is refused.
    pub fn try_from(value: u8) -> (r: AdxlResult<Self>)
        ensures
            match r {
                Ok(v) => decoded(Self::MASK, value) == Ok::<u8, AdxlError>(v@),
                Err(e) => decoded(Self::MASK, value) == Err::<u8, AdxlError>(e),
            },
    {
        match check_mask(Self::MASK, value) {
            Ok(byte) => Ok(DataFormat { byte }),
            Err(e) => Err(e),
        }
    }

    /// The raw register byte.
    pub fn byte(&self) -> (b: u8)
        ensures
            b == encoded(self@),
            within(Self::MASK, b),
    {
        proof {
            use_type_invariant(self);
        }
        self.byte
    }

    /// Whether the self-test force is applied.
    pub fn self_test(&self) -> (on: bool)
        ensures
            on == has_bit(self@, 7),
    {
        get_bit(self.byte, 7)
    }

    /// Applies or removes the self-test force.
    pub fn set_self_test(&mut self, on: bool)
        ensures
            final(self)@ == with_field(old(self)@, 7, 1, flag(on)),
    {
        proof {
            use_type_invariant(&*self);
            Self::lemma_fields_in_mask();
            lemma_field_stays_within(Self::MASK, self.byte, 7, 1, flag(on));
        }
        self.byte = put_bit(self.byte, 7, on);
    }

    /// Whether the device expects 3-wire serial mode.
    pub fn spi(&self) -> (on: bool)
        ensures
            on == has_bit(self@, 6),
    {
        get_bit(self.byte, 6)
    }

    /// Selects 3-wire or 4-wire serial mode.
    pub fn set_spi(&mut self, on: bool)
        ensures
            final(self)@ == with_field(old(self)@, 6, 1, flag(on)),
    {
        proof {
            use_type_invariant(&*self);
            Self::lemma_fields_in_mask();
            lemma_field_stays_within(Self::MASK, self.byte, 6, 1, flag(on));
        }
        self.byte = put_bit(self.byte, 6, on);
    }

    /// Whether the interrupt pins are active low.
    pub fn int_invert(&self) -> (on: bool)
        ensures
            on == has_bit(self@, 5),
    {
        get_bit(self.byte, 5)
    }

    /// Makes the interrupt pins active low or active high.
    pub fn set_int_invert(&mut self, on: bool)
        ensures
            final(self)@ == with_field(old(self)@, 5, 1, flag(on)),
    {
        proof {
            use_type_invariant(&*self);
            Self::lemma_fields_in_mask();
            lemma_field_stays_within(Self::MASK, self.byte, 5, 1, flag(on));
        }
        self.byte = put_bit(self.byte, 5, on);
    }

    /// Whether full resolution mode is selected.
    pub fn full_res(&self) -> (on: bool)
        ensures
            on == has_bit(self@, 3),
    {
        get_bit(self.byte, 3)
    }

    /// Selects full resolution or 10-bit mode.
    pub fn set_full_res(&mut self, on: bool)
        ensures
            final(self)@ == with_field(old(self)@, 3, 1, flag(on)),
    {
        proof {
            use_type_invariant(&*self);
            Self::lemma_fields_in_mask();
            lemma_field_stays_within(Self::MASK, self.byte, 3, 1, flag(on));
        }
        self.byte = put_bit(self.byte, 3, on);
    }

    /// Whether the data is left-justified.
    pub fn justify(&self) -> (on: bool)
        ensures
            on == has_bit(self@, 2),
    {
        get_bit(self.byte, 2)
    }

    /// Selects left-justified or right-justified data.
    pub fn set_justify(&mut self, on: bool)
        ensures
            final(self)@ == with_field(old(self)@, 2, 1, flag(on)),
    {
        proof {
            use_type_invariant(&*self);
            Self::lemma_fields_in_mask();
            lemma_field_stays_within(Self::MASK, self.byte, 2, 1, flag(on));
        }
        self.byte = put_bit(self.byte, 2, on);
    }

    /// The g range code.
    pub fn range(&self) -> (v: u8)
        ensures
            v == field_of(self@, 0, 2),
            v <= 0x03,
    {
        proof {
            lemma_field_max();
        }
        get_field(self.byte, 0, 2)
    }

    /// Sets the g range code. Bits of `value` above the field's width are dropped.
    pub fn set_range(&mut self, value: u8)
        ensures
            final(self)@ == with_field(old(self)@, 0, 2, value),
    {
        proof {
            use_type_invariant(&*self);
            Self::lemma_fields_in_mask();
            lemma_field_stays_within(Self::MASK, self.byte, 0, 2, value);
        }
        self.byte = put_field(self.byte, 0, 2, value);
    }

    /// Every field of the register lies inside its mask.
    proof fn lemma_fields_in_mask()
        by (bit_vector)
        ensures
            within(0xef, field_mask(7, 1)),
            within(0xef, field_mask(6, 1)),
            within(0xef, field_mask(5, 1)),
            within(0xef, field_mask(3, 1)),
            within(0xef, field_mask(2, 1)),
            within(0xef, field_mask(0, 2)),
    {
    }
}

/// FIFO control (`FIFO_CTL`). Every bit of the register is defined, so each
/// byte is a valid value.
///
/// | Field       | Bits | Meaning                                           |
/// | ----------- | ---: | ------------------------------------------------- |
/// | `fifo_mode` |  6-7 | bypass, FIFO, stream or trigger                   |
/// | `trigger`   |    5 | the trigger event is linked to INT2; INT1 if not  |
/// | `samples`   |  0-4 | entries before the watermark, or kept on trigger  |
#[derive(Debug, Clone, Copy, PartialEq, Eq)]
pub struct FifoControl {
    /// The raw register byte.
    pub byte: u8,
}

impl View for FifoControl {
    type V = u8;

    open spec fn view(&self) -> u8 {
        self.byte
    }
}

impl FifoControl {
    /// The bits that the register defines.
    pub const MASK: u8 = 0xff;

    /// The raw register byte.
    pub fn byte(&self) -> (b: u8)
        ensures
            b == encoded(self@),
    {
        self.byte
    }

    /// The FIFO mode code.
    pub fn fifo_mode(&self) -> (v: u8)
        ensures
            v == field_of(self@, 6, 2),
            v <= 0x03,
    {
        proof {
            lemma_field_max();
        }
        get_field(self.byte, 6, 2)
    }

    /// Sets the FIFO mode code. Bits of `value` above the field's width are dropped.
    pub fn set_fifo_mode(&mut self, value: u8)
        ensures
            final(self)@ == with_field(old(self)@, 6, 2, value),
    {
        self.byte = put_field(self.byte, 6, 2, value);
    }

    /// Whether the trigger event is linked to INT2.
    pub fn trigger(&self) -> (on: bool)
        ensures
            on == has_bit(self@, 5),
    {
        get_bit(self.byte, 5)
    }

    /// Links the trigger event to INT2 or to INT1.
    pub fn set_trigger(&mut self, on: bool)
        ensures
            final(self)@ == with_field(old(self)@, 5, 1, flag(on)),
    {
        self.byte = put_bit(self.byte, 5, on);
    }

    /// The samples count.
    pub fn samples(&self) -> (v: u8)
        ensures
            v == field_of(self@, 0, 5),
            v <= 0x1f,
    {
        proof {
            lemma_field_max();
        }
        get_field(self.byte, 0, 5)
    }

    /// Sets the samples count. Bits of `value` above the field's width are dropped.
    pub fn set_samples(&mut self, value: u8)
        ensures
            final(self)@ == with_field(old(self)@, 0, 5, value),
    {
        self.byte = put_field(self.byte, 0, 5, value);
    }
}

impl From<u8> for FifoControl {
    fn from(value: u8) -> (r: Self) {
        FifoControl { byte: value }
    }
}

impl vstd::std_specs::convert::FromSpecImpl<u8> for FifoControl {
    open spec fn obeys_from_spec() -> bool {
        true
    }

    open spec fn from_spec(value: u8) -> Self {
        FifoControl { byte: value }
    }
}

/// FIFO status (`FIFO_STATUS`, read-only). Bit 6 is not defined.
///
/// | Field          | Bits | Meaning                               |
/// | -------------- | ---: | ------------------------------------- |
/// | `fifo_trigger` |    7 | a trigger event has occurred          |
/// | `entries`      |  0-5 | how many entries the FIFO holds       |
#[derive(Debug, Clone, Copy, PartialEq, Eq)]
pub struct FifoStatus {
    byte: u8,
}

impl View for FifoStatus {
    type V = u8;

    closed spec fn view(&self) -> u8 {
        self.byte
    }
}

impl FifoStatus {
    /// The bits that the register defines.
    pub const MASK: u8 = 0xbf;

    #[verifier::type_invariant]
    spec fn defined_bits_only(self) -> bool {
        within(Self::MASK, self.byte)
    }

    /// Decodes a raw register byte; one with a bit outside the mask is refused.
    pub fn try_from(value: u8) -> (r: AdxlResult<Self>)
        ensures
            match r {
                Ok(v) => decoded(Self::MASK, value) == Ok::<u8, AdxlError>(v@),
                Err(e) => decoded(Self::MASK, value) == Err::<u8, AdxlError>(e),
            },
    {
        match check_mask(Self::MASK, value) {
            Ok(byte) => Ok(FifoStatus { byte }),
            Err(e) => Err(e),
        }
    }

    /// The raw register byte.
    pub fn byte(&self) -> (b: u8)
        ensures
            b == encoded(self@),
            within(Self::MASK, b),
    {
        proof {
            use_type_invariant(self);
        }
        self.byte
    }

    /// Whether a trigger event has occurred.
    pub fn fifo_trigger(&self) -> (on: bool)
        ensures
            on == has_bit(self@, 7),
    {
        get_bit(self.byte, 7)
    }

    /// How many entries the FIFO holds.
    pub fn entries(&self) -> (v: u8)
        ensures
            v == field_of(self@, 0, 6),
            v <= 0x3f,
    {
        proof {
            lemma_field_max();
        }
        get_field(self.byte, 0, 6)
    }
}

/// Power-saving features control (`POWER_CTL`).
///
/// | Field        | Bits | Meaning                                          |
/// | ------------ | ---: | ------------------------------------------------ |
/// | `link`       |    5 | activity and inactivity functions run serially   |
/// | `auto_sleep` |    4 | sleep on inactivity, if `link` is set            |
/// | `measure`    |    3 | measurement mode; standby when clear             |
/// | `sleep`      |    2 | sleep mode                                       |
/// | `wakeup`     |  0-1 | readings in sleep mode: 8, 4, 2 or 1 Hz          |
#[derive(Debug, Clone, Copy, PartialEq, Eq)]
pub struct PowerControl {
    byte: u8,
}

impl View for PowerControl {
    type V = u8;

    closed spec fn view(&self) -> u8 {
        self.byte
    }
}

impl PowerControl {
    /// The bits that the register defines.
    pub const MASK: u8 = 0x3f;

    #[verifier::type_invariant]
    spec fn defined_bits_only(self) -> bool {
        within(Self::MASK, self.byte)
    }

    /// Decodes a raw register byte; one with a bit outside the mask is refused.
    pub fn try_from(value: u8) -> (r: AdxlResult<Self>)
        ensures
            match r {
                Ok(v) => decoded(Self::MASK, value) == Ok::<u8, AdxlError>(v@),
                Err(e) => decoded(Self::MASK, value) == Err::<u8, AdxlError>(e),
            },
    {
        match check_mask(Self::MASK, value) {
            Ok(byte) => Ok(PowerControl { byte }),
            Err(e) => Err(e),
        }
    }

    /// The raw register byte.
    pub fn byte(&self) -> (b: u8)
        ensures
            b == encoded(self@),
            within(Self::MASK, b),
    {
        proof {
            use_type_invariant(self);
        }
        self.byte
    }

    /// Whether the activity and inactivity functions are linked.
    pub fn link(&self) -> (on: bool)
        ensures
            on == has_bit(self@, 5),
    {
        get_bit(self.byte, 5)
    }

    /// Links or unlinks the activity and inactivity functions.
    pub fn set_link(&mut self, on: bool)
        ensures
            final(self)@ == with_field(old(self)@, 5, 1, flag(on)),
    {
        proof {
            use_type_invariant(&*self);
            Self::lemma_fields_in_mask();
            lemma_field_stays_within(Self::MASK, self.byte, 5, 1, flag(on));
        }
        self.byte = put_bit(self.byte, 5, on);
    }

    /// Whether auto-sleep is enabled.
    pub fn auto_sleep(&self) -> (on: bool)
        ensures
            on == has_bit(self@, 4),
    {
        get_bit(self.byte, 4)
    }

    /// Enables or disables auto-sleep.
    pub fn set_auto_sleep(&mut self, on: bool)
        ensures
            final(self)@ == with_field(old(self)@, 4, 1, flag(on)),
    {
        proof {
            use_type_invariant(&*self);
            Self::lemma_fields_in_mask();
            lemma_field_stays_within(Self::MASK, self.byte, 4, 1, flag(on));
        }
        self.byte = put_bit(self.byte, 4, on);
    }

    /// Whether the device is in measurement mode.
    pub fn measure(&self) -> (on: bool)
        ensures
            on == has_bit(self@, 3),
    {
        get_bit(self.byte, 3)
    }

    /// Selects measurement or standby mode.
    pub fn set_measure(&mut self, on: bool)
        ensures
            final(self)@ == with_field(old(self)@, 3, 1, flag(on)),
    {
        proof {
            use_type_invariant(&*self);
            Self::lemma_fields_in_mask();
            lemma_field_stays_within(Self::MASK, self.byte, 3, 1, flag(on));
        }
        self.byte = put_bit(self.byte, 3, on);
    }

    /// Whether the device is in sleep mode.
    pub fn sleep(&self) -> (on: bool)
        ensures
            on == has_bit(self@, 2),
    {
        get_bit(self.byte, 2)
    }

    /// Puts the device into sleep mode or wakes it.
    pub fn set_sleep(&mut self, on: bool)
        ensures
            final(self)@ == with_field(old(self)@, 2, 1, flag(on)),
    {
        proof {
            use_type_invariant(&*self);
            Self::lemma_fields_in_mask();
            lemma_field_stays_within(Self::MASK, self.byte, 2, 1, flag(on));
        }
        self.byte = put_bit(self.byte, 2, on);
    }

    /// The wake-up rate code.
    pub fn wakeup(&self) -> (v: u8)
        ensures
            v == field_of(self@, 0, 2),
            v <= 0x03,
    {
        proof {
            lemma_field_max();
        }
        get_field(self.byte, 0, 2)
    }

    /// Sets the wake-up rate code. Bits of `value` above the field's width are dropped.
    pub fn set_wakeup(&mut self, value: u8)
        ensures
            final(self)@ == with_field(old(self)@, 0, 2, value),
    {
        proof {
            use_type_invariant(&*self);
            Self::lemma_fields_in_mask();
            lemma_field_stays_within(Self::MASK, self.byte, 0, 2, value);
        }
        self.byte = put_field(self.byte, 0, 2, value);
    }

    /// Every field of the register lies inside its mask.
    proof fn lemma_fields_in_mask()
        by (bit_vector)
        ensures
            within(0x3f, field_mask(5, 1)),
            within(0x3f, field_mask(4, 1)),
            within(0x3f, field_mask(3, 1)),
            within(0x3f, field_mask(2, 1)),
            within(0x3f, field_mask(0, 2)),
    {
    }
}

} // verus!
