//! The errors of the concentrator library.
use vstd::prelude::*;

verus! {

#[derive(Debug)]
pub enum ConcentratorError {
    /// Item exceeds duty-cycle.
    DutyCycle,
    /// Item would exceed duty-cycle with future items.
    DutyCycleFutureItems,
    /// No band for the frequency and the TX power (EIRP).
    BandNotFound(u32, i8),
    /// Timeout.
    Timeout,
    /// Any other error.
    Anyhow(anyhow::Error),
}

} // verus!
