//! The integer model of `std::time::Duration` that the rest of the library
//! reasons with: a duration is the number of nanoseconds it holds.
use std::time::Duration;
use vstd::prelude::*;

verus! {

/// Nanoseconds in one second.
pub const NANOS_PER_SEC: u128 = 1_000_000_000;

/// Nanoseconds in one microsecond.
pub const NANOS_PER_MICRO: u128 = 1_000;

/// The largest number of nanoseconds a `Duration` holds:
/// `u64::MAX` seconds plus 999_999_999 nanoseconds.
pub const MAX_DURATION_NANOS: u128 = 18_446_744_073_709_551_615_999_999_999;

/// The number of nanoseconds that `Duration::as_nanos` reports for `d`.
pub uninterp spec fn duration_nanos(d: Duration) -> u128;

/// `Duration::as_nanos` returns the total number of nanoseconds of the duration;
/// as a duration holds at most `u64::MAX` whole seconds, that number is at most
/// `MAX_DURATION_NANOS`.
pub assume_specification[ std::time::Duration::as_nanos ](d: &std::time::Duration) -> (r: u128)
    ensures
        r == duration_nanos(*d),
        r <= MAX_DURATION_NANOS,
;

/// `Duration::new(secs, nanos)` makes the duration of `secs` seconds plus
/// `nanos` nanoseconds; below one second of `nanos` it cannot overflow.
pub assume_specification[ std::time::Duration::new ](secs: u64, subsec_nanos: u32) -> (r: std::time::Duration)
    requires
        subsec_nanos < 1_000_000_000,
    ensures
        duration_nanos(r) == secs as int * 1_000_000_000 + subsec_nanos as int,
;

/// Cloning a duration (a `Copy` type) gives the same duration.
pub assume_specification[ <std::time::Duration as std::clone::Clone>::clone ](d: &std::time::Duration) -> (r: std::time::Duration)
    ensures
        r == *d,
;

/// The value of a duration, in nanoseconds.
pub open spec fn nanos(d: Duration) -> int {
    duration_nanos(d) as int
}

/// The value of a duration, in whole microseconds (as `Duration::as_micros` gives it).
pub open spec fn micros(d: Duration) -> int {
    nanos(d) / 1000
}

/// The duration of `n` nanoseconds.
pub fn from_nanos_u128(n: u128) -> (d: Duration)
    requires
        n <= MAX_DURATION_NANOS,
    ensures
        nanos(d) == n,
{
    let secs = n / NANOS_PER_SEC;
    let sub = n % NANOS_PER_SEC;
    assert(secs <= u64::MAX);
    Duration::new(secs as u64, sub as u32)
}

/// The duration of `us` microseconds.
pub fn from_micros(us: u64) -> (d: Duration)
    ensures
        nanos(d) == us * 1000,
{
    from_nanos_u128(us as u128 * NANOS_PER_MICRO)
}

/// The duration of `s` seconds.
pub fn from_secs(s: u64) -> (d: Duration)
    ensures
        nanos(d) == s * 1_000_000_000,
{
    Duration::new(s, 0)
}

/// The number of nanoseconds of `d`.
pub fn as_nanos(d: Duration) -> (n: u128)
    ensures
        n == nanos(d),
        n <= MAX_DURATION_NANOS,
{
    d.as_nanos()
}

/// The number of whole microseconds of `d`, as `Duration::as_micros` gives it.
pub fn as_micros(d: Duration) -> (us: u128)
    ensures
        us == micros(d),
{
    d.as_nanos() / NANOS_PER_MICRO
}

} // verus!
