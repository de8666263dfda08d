//! Conversions between durations and the concentrator counter.
use std::time::Duration;
use vstd::prelude::*;

use crate::time::{micros, NANOS_PER_MICRO};

verus! {

/// Conversion of a time into the `u32` microsecond counter of the concentrator,
/// which rolls over every 2^32 microseconds.
pub trait ToConcentratorCount: Sized {
    fn to_concentrator_count(self) -> u32;
}

/// The counter value for a duration: its whole microseconds, modulo 2^32.
impl ToConcentratorCount for Duration {
    fn to_concentrator_count(self) -> (c: u32)
        ensures
            c == micros(self) % 0x1_0000_0000,
    {
        ((self.as_nanos() / NANOS_PER_MICRO) % 0x1_0000_0000) as u32
    }
}

} // verus!
