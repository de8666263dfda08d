//! The item of the regulation engine, without its packet.
use std::time::Duration;
use vstd::prelude::*;

verus! {

/// A transmission as the regulation engine tracks it: when it is sent, for how
/// long, on which frequency and with which power, and whether its load was already
/// counted.
#[derive(Copy, Clone)]
pub struct Item {
    pub time: Duration,
    pub airtime: Duration,
    pub frequency: u32,
    pub tx_power: i8,
    pub aggregated: bool,
}

} // verus!
