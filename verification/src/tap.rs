//! The four tap parameters that are read and written together.

use vstd::prelude::*;

verus! {

/// Threshold, duration, latency and window of single and double tap
/// detection, each as its register holds it.
///
/// A value of 0 disables the function it belongs to.
#[derive(Debug, Clone, Copy, PartialEq, Eq)]
pub struct Tap {
    /// The acceleration that an event must exceed to count as a tap
    /// (62.5 mg/LSB).
    pub threshold: u8,
    /// The longest time an event may stay above the threshold (625 µs/LSB).
    pub duration: u8,
    /// The wait between a tap and the window for a second one (1.25 ms/LSB).
    pub latency: u8,
    /// The time after the latency in which a second tap may begin
    /// (1.25 ms/LSB).
    pub window: u8,
}

impl View for Tap {
    type V = (u8, u8, u8, u8);

    open spec fn view(&self) -> (u8, u8, u8, u8) {
        (self.threshold, self.duration, self.latency, self.window)
    }
}

/// The group that four register bytes stand for, in register order.
pub open spec fn tap_of(bytes: Seq<u8>) -> Tap {
    Tap { threshold: bytes[0], duration: bytes[1], latency: bytes[2], window: bytes[3] }
}

impl Tap {
    /// A group of the four given values.
    pub fn new(threshold: u8, duration: u8, latency: u8, window: u8) -> (tap: Self)
        ensures
            tap@ == (threshold, duration, latency, window),
    {
        Tap { threshold, duration, latency, window }
    }
}

impl From<(u8, u8, u8, u8)> for Tap {
    fn from(tap: (u8, u8, u8, u8)) -> (r: Self) {
        Tap { threshold: tap.0, duration: tap.1, latency: tap.2, window: tap.3 }
    }
}

impl vstd::std_specs::convert::FromSpecImpl<(u8, u8, u8, u8)> for Tap {
    open spec fn obeys_from_spec() -> bool {
        true
    }

    open spec fn from_spec(tap: (u8, u8, u8, u8)) -> Self {
        Tap { threshold: tap.0, duration: tap.1, latency: tap.2, window: tap.3 }
    }
}

impl From<[u8; 4]> for Tap {
    fn from(tap: [u8; 4]) -> (r: Self) {
        Tap { threshold: tap[0], duration: tap[1], latency: tap[2], window: tap[3] }
    }
}

impl vstd::std_specs::convert::FromSpecImpl<[u8; 4]> for Tap {
    open spec fn obeys_from_spec() -> bool {
        true
    }

    open spec fn from_spec(tap: [u8; 4]) -> Self {
        Tap { threshold: tap[0], duration: tap[1], latency: tap[2], window: tap[3] }
    }
}

} // verus!
