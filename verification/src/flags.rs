//! The registers whose bits are independent flags.
//!
//! A flag set wraps the raw byte of its register. Its named flags are byte
//! constants; `from_bits` accepts any union of them and nothing else, and the
//! union of two sets is again a set.

use crate::bits::{check_mask, decoded, lemma_mask_bounds, lemma_union_within, within};
use crate::error::AdxlError;
use vstd::prelude::*;

verus! {

/// Axis enable control for activity and inactivity detection
/// (`ACT_INACT_CTL`). Every bit of the register is a flag.
#[derive(Debug, Clone, Copy, PartialEq, Eq)]
pub struct ActivityMode {
    bits: u8,
}

impl View for ActivityMode {
    type V = u8;

    closed spec fn view(&self) -> u8 {
        self.bits
    }
}

impl ActivityMode {
    /// Activity detection is AC-coupled.
    pub const ACT_AC: u8 = 0x80;

    /// Activity detection is DC-coupled.
    pub const ACT_DC: u8 = 0x00;

    /// The X-axis takes part in detecting activity.
    pub const ACT_X_ENABLE: u8 = 0x40;

    /// The X-axis takes no part in detecting activity.
    pub const ACT_X_DISABLE: u8 = 0x00;

    /// The Y-axis takes part in detecting activity.
    pub const ACT_Y_ENABLE: u8 = 0x20;

    /// The Y-axis takes no part in detecting activity.
    pub const ACT_Y_DISABLE: u8 = 0x00;

    /// The Z-axis takes part in detecting activity.
    pub const ACT_Z_ENABLE: u8 = 0x10;

    /// The Z-axis takes no part in detecting activity.
    pub const ACT_Z_DISABLE: u8 = 0x00;

    /// Inactivity detection is AC-coupled.
    pub const INACT_AC: u8 = 0x08;

    /// Inactivity detection is DC-coupled.
    pub const INACT_DC: u8 = 0x00;

    /// The X-axis takes part in detecting inactivity.
    pub const INACT_X_ENABLE: u8 = 0x04;

    /// The X-axis takes no part in detecting inactivity.
    pub const INACT_X_DISABLE: u8 = 0x00;

    /// The Y-axis takes part in detecting inactivity.
    pub const INACT_Y_ENABLE: u8 = 0x02;

    /// The Y-axis takes no part in detecting inactivity.
    pub const INACT_Y_DISABLE: u8 = 0x00;

    /// The Z-axis takes part in detecting inactivity.
    pub const INACT_Z_ENABLE: u8 = 0x01;

    /// The Z-axis takes no part in detecting inactivity.
    pub const INACT_Z_DISABLE: u8 = 0x00;

    /// The union of all named flags.
    pub const MASK: u8 = 0xff;

    #[verifier::type_invariant]
    spec fn named_flags_only(self) -> bool {
        within(Self::MASK, self.bits)
    }

    /// The set that a raw byte stands for, if every bit it sets is a named flag.
    pub fn from_bits(bits: u8) -> (r: Option<Self>)
        ensures
            match r {
                Some(set) => decoded(Self::MASK, bits) == Ok::<u8, AdxlError>(set@),
                None => decoded(Self::MASK, bits) is Err,
            },
    {
        match check_mask(Self::MASK, bits) {
            Ok(bits) => Some(ActivityMode { bits }),
            Err(_) => None,
        }
    }

    /// The raw byte of the set.
    pub fn bits(&self) -> (b: u8)
        ensures
            b == self@,
            within(Self::MASK, b),
    {
        proof {
            use_type_invariant(self);
        }
        self.bits
    }

    /// The set with no flag.
    pub fn empty() -> (set: Self)
        ensures
            set@ == 0,
    {
        proof {
            lemma_mask_bounds(Self::MASK);
        }
        ActivityMode { bits: 0 }
    }

    /// The set with every named flag.
    pub fn all() -> (set: Self)
        ensures
            set@ == Self::MASK,
    {
        proof {
            lemma_mask_bounds(Self::MASK);
        }
        ActivityMode { bits: Self::MASK }
    }

    /// The flags of either set.
    pub fn union(self, other: Self) -> (set: Self)
        ensures
            set@ == self@ | other@,
    {
        proof {
            use_type_invariant(&self);
            use_type_invariant(&other);
            lemma_union_within(Self::MASK, self.bits, other.bits);
        }
        ActivityMode { bits: self.bits | other.bits }
    }

    /// Whether every flag of `other` is in this set.
    pub fn contains(&self, other: Self) -> (b: bool)
        ensures
            b == (self@ & other@ == other@),
    {
        self.bits & other.bits == other.bits
    }
}

impl Default for ActivityMode {
    /// The set with no flag.
    fn default() -> (set: Self)
        ensures
            set@ == 0,
    {
        ActivityMode::empty()
    }
}

/// Source of a tap or activity event (`ACT_TAP_STATUS`, read-only). Bit 7 is
/// not defined.
///
/// The register should be read before the interrupt is cleared.
#[derive(Debug, Clone, Copy, PartialEq, Eq)]
pub struct ATStatus {
    bits: u8,
}

impl View for ATStatus {
    type V = u8;

    closed spec fn view(&self) -> u8 {
        self.bits
    }
}

impl ATStatus {
    /// The X-axis was involved in the activity event.
    pub const ACT_X: u8 = 0x40;

    /// The Y-axis was involved in the activity event.
    pub const ACT_Y: u8 = 0x20;

    /// The Z-axis was involved in the activity event.
    pub const ACT_Z: u8 = 0x10;

    /// The part is asleep.
    pub const ASLEEP: u8 = 0x08;

    /// The X-axis was involved in the tap event.
    pub const TAP_X: u8 = 0x04;

    /// The Y-axis was involved in the tap event.
    pub const TAP_Y: u8 = 0x02;

    /// The Z-axis was involved in the tap event.
    pub const TAP_Z: u8 = 0x01;

    /// The union of all named flags.
    pub const MASK: u8 = 0x7f;

    #[verifier::type_invariant]
    spec fn named_flags_only(self) -> bool {
        within(Self::MASK, self.bits)
    }

    /// The set that a raw byte stands for, if every bit it sets is a named flag.
    pub fn from_bits(bits: u8) -> (r: Option<Self>)
        ensures
            match r {
                Some(set) => decoded(Self::MASK, bits) == Ok::<u8, AdxlError>(set@),
                None => decoded(Self::MASK, bits) is Err,
            },
    {
        match check_mask(Self::MASK, bits) {
            Ok(bits) => Some(ATStatus { bits }),
            Err(_) => None,
        }
    }

    /// The raw byte of the set.
    pub fn bits(&self) -> (b: u8)
        ensures
            b == self@,
            within(Self::MASK, b),
    {
        proof {
            use_type_invariant(self);
        }
        self.bits
    }

    /// The set with no flag.
    pub fn empty() -> (set: Self)
        ensures
            set@ == 0,
    {
        proof {
            lemma_mask_bounds(Self::MASK);
        }
        ATStatus { bits: 0 }
    }

    /// The set with every named flag.
    pub fn all() -> (set: Self)
        ensures
            set@ == Self::MASK,
    {
        proof {
            lemma_mask_bounds(Self::MASK);
        }
        ATStatus { bits: Self::MASK }
    }

    /// The flags of either set.
    pub fn union(self, other: Self) -> (set: Self)
        ensures
            set@ == self@ | other@,
    {
        proof {
            use_type_invariant(&self);
            use_type_invariant(&other);
            lemma_union_within(Self::MASK, self.bits, other.bits);
        }
        ATStatus { bits: self.bits | other.bits }
    }

    /// Whether every flag of `other` is in this set.
    pub fn contains(&self, other: Self) -> (b: bool)
        ensures
            b == (self@ & other@ == other@),
    {
        self.bits & other.bits == other.bits
    }
}

/// Interrupt enable control (`INT_ENABLE`). Every bit of the register is a
/// flag. The data-ready, watermark and overrun functions are always on; their
/// flags only gate the interrupt.
#[derive(Debug, Clone, Copy, PartialEq, Eq)]
pub struct IntControlMode {
    bits: u8,
}

impl View for IntControlMode {
    type V = u8;

    closed spec fn view(&self) -> u8 {
        self.bits
    }
}

impl IntControlMode {
    /// The data-ready interrupt is disabled.
    pub const DATA_READY_DISABLE: u8 = 0x00;

    /// The data-ready interrupt is enabled.
    pub const DATA_READY_ENABLE: u8 = 0x80;

    /// The single tap interrupt is disabled.
    pub const SINGLE_TAP_DISABLE: u8 = 0x00;

    /// The single tap interrupt is enabled.
    pub const SINGLE_TAP_ENABLE: u8 = 0x40;

    /// The double tap interrupt is disabled.
    pub const DOUBLE_TAP_DISABLE: u8 = 0x00;

    /// The double tap interrupt is enabled.
    pub const DOUBLE_TAP_ENABLE: u8 = 0x20;

    /// The activity interrupt is disabled.
    pub const ACTIVITY_DISABLE: u8 = 0x00;

    /// The activity interrupt is enabled.
    pub const ACTIVITY_ENABLE: u8 = 0x10;

    /// The inactivity interrupt is disabled.
    pub const INACTIVITY_DISABLE: u8 = 0x00;

    /// The inactivity interrupt is enabled.
    pub const INACTIVITY_ENABLE: u8 = 0x08;

    /// The free-fall interrupt is disabled.
    pub const FREE_FALL_DISABLE: u8 = 0x00;

    /// The free-fall interrupt is enabled.
    pub const FREE_FALL_ENABLE: u8 = 0x04;

    /// The watermark interrupt is disabled.
    pub const WATERMARK_DISABLE: u8 = 0x00;

    /// The watermark interrupt is enabled.
    pub const WATERMARK_ENABLE: u8 = 0x02;

    /// The overrun interrupt is disabled.
    pub const OVERRUN_DISABLE: u8 = 0x00;

    /// The overrun interrupt is enabled.
    pub const OVERRUN_ENABLE: u8 = 0x01;

    /// The union of all named flags.
    pub const MASK: u8 = 0xff;

    #[verifier::type_invariant]
    spec fn named_flags_only(self) -> bool {
        within(Self::MASK, self.bits)
    }

    /// The set that a raw byte stands for, if every bit it sets is a named flag.
    pub fn from_bits(bits: u8) -> (r: Option<Self>)
        ensures
            match r {
                Some(set) => decoded(Self::MASK, bits) == Ok::<u8, AdxlError>(set@),
                None => decoded(Self::MASK, bits) is Err,
            },
    {
        match check_mask(Self::MASK, bits) {
            Ok(bits) => Some(IntControlMode { bits }),
            Err(_) => None,
        }
    }

    /// The raw byte of the set.
    pub fn bits(&self) -> (b: u8)
        ensures
            b == self@,
            within(Self::MASK, b),
    {
        proof {
            use_type_invariant(self);
        }
        self.bits
    }

    /// The set with no flag.
    pub fn empty() -> (set: Self)
        ensures
            set@ == 0,
    {
        proof {
            lemma_mask_bounds(Self::MASK);
        }
        IntControlMode { bits: 0 }
    }

    /// The set with every named flag.
    pub fn all() -> (set: Self)
        ensures
            set@ == Self::MASK,
    {
        proof {
            lemma_mask_bounds(Self::MASK);
        }
        IntControlMode { bits: Self::MASK }
    }

    /// The flags of either set.
    pub fn union(self, other: Self) -> (set: Self)
        ensures
            set@ == self@ | other@,
    {
        proof {
            use_type_invariant(&self);
            use_type_invariant(&other);
            lemma_union_within(Self::MASK, self.bits, other.bits);
        }
        IntControlMode { bits: self.bits | other.bits }
    }

    /// Whether every flag of `other` is in this set.
    pub fn contains(&self, other: Self) -> (b: bool)
        ensures
            b == (self@ & other@ == other@),
    {
        self.bits & other.bits == other.bits
    }
}

impl Default for IntControlMode {
    /// The set with no flag.
    fn default() -> (set: Self)
        ensures
            set@ == 0,
    {
        IntControlMode::empty()
    }
}

/// Interrupt mapping control (`INT_MAP`). Every bit of the register is a
/// flag: set, it sends its interrupt to the INT2 pin; clear, to INT1.
#[derive(Debug, Clone, Copy, PartialEq, Eq)]
pub struct IntMapMode {
    bits: u8,
}

impl View for IntMapMode {
    type V = u8;

    closed spec fn view(&self) -> u8 {
        self.bits
    }
}

impl IntMapMode {
    /// The data-ready interrupt goes to the INT1 pin.
    pub const DATA_READY_INT1: u8 = 0x00;

    /// The data-ready interrupt goes to the INT2 pin.
    pub const DATA_READY_INT2: u8 = 0x80;

    /// The single tap interrupt goes to the INT1 pin.
    pub const SINGLE_TAP_INT1: u8 = 0x00;

    /// The single tap interrupt goes to the INT2 pin.
    pub const SINGLE_TAP_INT2: u8 = 0x40;

    /// The double tap interrupt goes to the INT1 pin.
    pub const DOUBLE_TAP_INT1: u8 = 0x00;

    /// The double tap interrupt goes to the INT2 pin.
    pub const DOUBLE_TAP_INT2: u8 = 0x20;

    /// The activity interrupt goes to the INT1 pin.
    pub const ACTIVITY_INT1: u8 = 0x00;

    /// The activity interrupt goes to the INT2 pin.
    pub const ACTIVITY_INT2: u8 = 0x10;

    /// The inactivity interrupt goes to the INT1 pin.
    pub const INACTIVITY_INT1: u8 = 0x00;

    /// The inactivity interrupt goes to the INT2 pin.
    pub const INACTIVITY_INT2: u8 = 0x08;

    /// The free-fall interrupt goes to the INT1 pin.
    pub const FREE_FALL_INT1: u8 = 0x00;

    /// The free-fall interrupt goes to the INT2 pin.
    pub const FREE_FALL_INT2: u8 = 0x04;

    /// The watermark interrupt goes to the INT1 pin.
    pub const WATERMARK_INT1: u8 = 0x00;

    /// The watermark interrupt goes to the INT2 pin.
    pub const WATERMARK_INT2: u8 = 0x02;

    /// The overrun interrupt goes to the INT1 pin.
    pub const OVERRUN_INT1: u8 = 0x00;

    /// The overrun interrupt goes to the INT2 pin.
    pub const OVERRUN_INT2: u8 = 0x01;

    /// The union of all named flags.
    pub const MASK: u8 = 0xff;

    #[verifier::type_invariant]
    spec fn named_flags_only(self) -> bool {
        within(Self::MASK, self.bits)
    }

    /// The set that a raw byte stands for, if every bit it sets is a named flag.
    pub fn from_bits(bits: u8) -> (r: Option<Self>)
        ensures
            match r {
                Some(set) => decoded(Self::MASK, bits) == Ok::<u8, AdxlError>(set@),
                None => decoded(Self::MASK, bits) is Err,
            },
    {
        match check_mask(Self::MASK, bits) {
            Ok(bits) => Some(IntMapMode { bits }),
            Err(_) => None,
        }
    }

    /// The raw byte of the set.
    pub fn bits(&self) -> (b: u8)
        ensures
            b == self@,
            within(Self::MASK, b),
    {
        proof {
            use_type_invariant(self);
        }
        self.bits
    }

    /// The set with no flag.
    pub fn empty() -> (set: Self)
        ensures
            set@ == 0,
    {
        proof {
            lemma_mask_bounds(Self::MASK);
        }
        IntMapMode { bits: 0 }
    }

    /// The set with every named flag.
    pub fn all() -> (set: Self)
        ensures
            set@ == Self::MASK,
    {
        proof {
            lemma_mask_bounds(Self::MASK);
        }
        IntMapMode { bits: Self::MASK }
    }

    /// The flags of either set.
    pub fn union(self, other: Self) -> (set: Self)
        ensures
            set@ == self@ | other@,
    {
        proof {
            use_type_invariant(&self);
            use_type_invariant(&other);
            lemma_union_within(Self::MASK, self.bits, other.bits);
        }
        IntMapMode { bits: self.bits | other.bits }
    }

    /// Whether every flag of `other` is in this set.
    pub fn contains(&self, other: Self) -> (b: bool)
        ensures
            b == (self@ & other@ == other@),
    {
        self.bits & other.bits == other.bits
    }
}

impl Default for IntMapMode {
    /// The set with no flag.
    fn default() -> (set: Self)
        ensures
            set@ == 0,
    {
        IntMapMode::empty()
    }
}

/// Source of interrupts (`INT_SOURCE`, read-only). Every bit of the register
/// is a flag. Data-ready, watermark and overrun always show here; the others
/// only while their interrupt is enabled.
#[derive(Debug, Clone, Copy, PartialEq, Eq)]
pub struct IntSource {
    bits: u8,
}

impl View for IntSource {
    type V = u8;

    closed spec fn view(&self) -> u8 {
        self.bits
    }
}

impl IntSource {
    /// A data-ready event has occurred.
    pub const DATA_READY: u8 = 0x80;

    /// A single tap event has occurred.
    pub const SINGLE_TAP: u8 = 0x40;

    /// A double tap event has occurred.
    pub const DOUBLE_TAP: u8 = 0x20;

    /// An activity event has occurred.
    pub const ACTIVITY: u8 = 0x10;

    /// An inactivity event has occurred.
    pub const INACTIVITY: u8 = 0x08;

    /// A free-fall event has occurred.
    pub const FREE_FALL: u8 = 0x04;

    /// A watermark event has occurred.
    pub const WATERMARK: u8 = 0x02;

    /// An overrun event has occurred.
    pub const OVERRUN: u8 = 0x01;

    /// The union of all named flags.
    pub const MASK: u8 = 0xff;

    #[verifier::type_invariant]
    spec fn named_flags_only(self) -> bool {
        within(Self::MASK, self.bits)
    }

    /// The set that a raw byte stands for, if every bit it sets is a named flag.
    pub fn from_bits(bits: u8) -> (r: Option<Self>)
        ensures
            match r {
                Some(set) => decoded(Self::MASK, bits) == Ok::<u8, AdxlError>(set@),
                None => decoded(Self::MASK, bits) is Err,
            },
    {
        match check_mask(Self::MASK, bits) {
            Ok(bits) => Some(IntSource { bits }),
            Err(_) => None,
        }
    }

    /// The raw byte of the set.
    pub fn bits(&self) -> (b: u8)
        ensures
            b == self@,
            within(Self::MASK, b),
    {
        proof {
            use_type_invariant(self);
        }
        self.bits
    }

    /// The set with no flag.
    pub fn empty() -> (set: Self)
        ensures
            set@ == 0,
    {
        proof {
            lemma_mask_bounds(Self::MASK);
        }
        IntSource { bits: 0 }
    }

    /// The set with every named flag.
    pub fn all() -> (set: Self)
        ensures
            set@ == Self::MASK,
    {
        proof {
            lemma_mask_bounds(Self::MASK);
        }
        IntSource { bits: Self::MASK }
    }

    /// The flags of either set.
    pub fn union(self, other: Self) -> (set: Self)
        ensures
            set@ == self@ | other@,
    {
        proof {
            use_type_invariant(&self);
            use_type_invariant(&other);
            lemma_union_within(Self::MASK, self.bits, other.bits);
        }
        IntSource { bits: self.bits | other.bits }
    }

    /// Whether every flag of `other` is in this set.
    pub fn contains(&self, other: Self) -> (b: bool)
        ensures
            b == (self@ & other@ == other@),
    {
        self.bits & other.bits == other.bits
    }
}

impl Default for IntSource {
    /// The set with no flag.
    fn default() -> (set: Self)
        ensures
            set@ == 0,
    {
        IntSource::empty()
    }
}

/// Axis control for single tap and double tap (`TAP_AXES`). Bits 4 to 7 are
/// not defined.
#[derive(Debug, Clone, Copy, PartialEq, Eq)]
pub struct TapMode {
    bits: u8,
}

impl View for TapMode {
    type V = u8;

    closed spec fn view(&self) -> u8 {
        self.bits
    }
}

impl TapMode {
    /// Double tap detection is suppressed if acceleration exceeds the
    /// threshold between the taps.
    pub const DT_DISABLE: u8 = 0x08;

    /// Double tap detection ignores acceleration between the taps.
    pub const DT_ENABLE: u8 = 0x00;

    /// The X-axis takes no part in tap detection.
    pub const X_DISABLE: u8 = 0x00;

    /// The X-axis takes part in tap detection.
    pub const X_ENABLE: u8 = 0x04;

    /// The Y-axis takes no part in tap detection.
    pub const Y_DISABLE: u8 = 0x00;

    /// The Y-axis takes part in tap detection.
    pub const Y_ENABLE: u8 = 0x02;

    /// The Z-axis takes no part in tap detection.
    pub const Z_DISABLE: u8 = 0x00;

    /// The Z-axis takes part in tap detection.
    pub const Z_ENABLE: u8 = 0x01;

    /// The union of all named flags.
    pub const MASK: u8 = 0x0f;

    #[verifier::type_invariant]
    spec fn named_flags_only(self) -> bool {
        within(Self::MASK, self.bits)
    }

    /// The set that a raw byte stands for, if every bit it sets is a named flag.
    pub fn from_bits(bits: u8) -> (r: Option<Self>)
        ensures
            match r {
                Some(set) => decoded(Self::MASK, bits) == Ok::<u8, AdxlError>(set@),
                None => decoded(Self::MASK, bits) is Err,
            },
    {
        match check_mask(Self::MASK, bits) {
            Ok(bits) => Some(TapMode { bits }),
            Err(_) => None,
        }
    }

    /// The raw byte of the set.
    pub fn bits(&self) -> (b: u8)
        ensures
            b == self@,
            within(Self::MASK, b),
    {
        proof {
            use_type_invariant(self);
        }
        self.bits
    }

    /// The set with no flag.
    pub fn empty() -> (set: Self)
        ensures
            set@ == 0,
    {
        proof {
            lemma_mask_bounds(Self::MASK);
        }
        TapMode { bits: 0 }
    }

    /// The set with every named flag.
    pub fn all() -> (set: Self)
        ensures
            set@ == Self::MASK,
    {
        proof {
            lemma_mask_bounds(Self::MASK);
        }
        TapMode { bits: Self::MASK }
    }

    /// The flags of either set.
    pub fn union(self, other: Self) -> (set: Self)
        ensures
            set@ == self@ | other@,
    {
        proof {
            use_type_invariant(&self);
            use_type_invariant(&other);
            lemma_union_within(Self::MASK, self.bits, other.bits);
        }
        TapMode { bits: self.bits | other.bits }
    }

    /// Whether every flag of `other` is in this set.
    pub fn contains(&self, other: Self) -> (b: bool)
        ensures
            b == (self@ & other@ == other@),
    {
        self.bits & other.bits == other.bits
    }
}

impl Default for TapMode {
    /// The set with no flag.
    fn default() -> (set: Self)
        ensures
            set@ == 0,
    {
        TapMode::empty()
    }
}

} // verus!
