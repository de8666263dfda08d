//! Conversions from the C `struct timespec` of the HAL to Rust times.
use std::time::{Duration, SystemTime};
use vstd::prelude::*;

use crate::outside::{duration_since_unix_epoch, since_unix_epoch, unix_time, unix_time_at};
use crate::time::{as_nanos, from_nanos_u128, nanos, MAX_DURATION_NANOS, NANOS_PER_SEC};

verus! {

/// A C `struct timespec`: seconds and nanoseconds.
#[derive(Debug, Clone, Copy, Default)]
pub struct Timespec {
    pub tv_sec: i64,
    pub tv_nsec: i64,
}

/// The nanoseconds of the duration that `timespec_to_duration` makes of `ts`: its
/// seconds and its nanoseconds, each read as an unsigned 64-bit number.
pub open spec fn timespec_nanos(ts: Timespec) -> int {
    (ts.tv_sec as u64) * 1_000_000_000 + (ts.tv_nsec as u64)
}

pub fn timespec_to_duration(ts: &Timespec) -> (d: Duration)
    requires
        timespec_nanos(*ts) <= MAX_DURATION_NANOS,
    ensures
        nanos(d) == timespec_nanos(*ts),
{
    let secs = ts.tv_sec as u64;
    let nsecs = ts.tv_nsec as u64;
    from_nanos_u128(secs as u128 * NANOS_PER_SEC + nsecs as u128)
}

/// The `timespec` of a duration: its whole seconds (cast to the signed 64-bit
/// `time_t`) and the nanoseconds past them.
pub fn duration_to_timespec(d: &Duration) -> (ts: Timespec)
    ensures
        ts.tv_sec == ((nanos(*d) / 1_000_000_000) as u64) as i64,
        ts.tv_nsec == nanos(*d) % 1_000_000_000,
{
    let n = as_nanos(*d);
    let secs = (n / NANOS_PER_SEC) as u64;
    Timespec { tv_sec: secs as i64, tv_nsec: (n % NANOS_PER_SEC) as i64 }
}

/// A duration of at most `i64::MAX` seconds comes back from its `timespec`.
pub proof fn lemma_timespec_round_trip(d: Duration)
    requires
        nanos(d) / 1_000_000_000 <= i64::MAX,
    ensures
        timespec_nanos(
            Timespec {
                tv_sec: ((nanos(d) / 1_000_000_000) as u64) as i64,
                tv_nsec: (nanos(d) % 1_000_000_000) as i64,
            },
        ) == nanos(d),
{
    let n = nanos(d);
    let secs = n / 1_000_000_000;
    let sub = n % 1_000_000_000;
    assert(((secs as u64) as i64) as u64 == secs);
    assert((sub as i64) as u64 == sub);
    assert(secs * 1_000_000_000 + sub == n);
}

/// The point in time `ts` after the Unix epoch (where it can be represented).
pub fn timespec_to_system_time(ts: &Timespec) -> (t: SystemTime)
    requires
        timespec_nanos(*ts) <= MAX_DURATION_NANOS,
        unix_time_at(timespec_nanos(*ts) as u128) is Some,
    ensures
        Some(t) == unix_time_at(timespec_nanos(*ts) as u128),
        since_unix_epoch(t) == Some(timespec_nanos(*ts) as u128),
{
    let d = timespec_to_duration(ts);
    unix_time(d).unwrap()
}

/// The point in time `ts` after the Unix epoch, or `None` where it cannot be
/// represented.
pub fn checked_timespec_to_system_time(ts: &Timespec) -> (t: Option<SystemTime>)
    requires
        timespec_nanos(*ts) <= MAX_DURATION_NANOS,
    ensures
        t == unix_time_at(timespec_nanos(*ts) as u128),
{
    let d = timespec_to_duration(ts);
    match unix_time(d) {
        Some(_) => Some(timespec_to_system_time(ts)),
        None => None,
    }
}

/// The `timespec` of a point in time after the Unix epoch: its whole seconds since
/// the epoch (cast to the signed 64-bit `time_t`) and the nanoseconds past them.
/// When those seconds fit `time_t`, the point in time comes back from the `timespec`.
pub fn system_time_to_timespec(st: &SystemTime) -> (ts: Timespec)
    requires
        since_unix_epoch(*st) is Some,
    ensures
        ts.tv_sec == ((since_unix_epoch(*st)->0 / 1_000_000_000) as u64) as i64,
        ts.tv_nsec == since_unix_epoch(*st)->0 % 1_000_000_000,
        since_unix_epoch(*st)->0 / 1_000_000_000 <= i64::MAX ==> {
            &&& timespec_nanos(ts) == since_unix_epoch(*st)->0
            &&& unix_time_at(timespec_nanos(ts) as u128) == Some(*st)
        },
{
    let d = duration_since_unix_epoch(st).unwrap();
    let ts = duration_to_timespec(&d);
    proof {
        if nanos(d) / 1_000_000_000 <= i64::MAX {
            lemma_timespec_round_trip(d);
        }
    }
    ts
}

/// The `timespec` of a point in time, or `None` for a time before the Unix epoch.
pub fn checked_system_time_to_timespec(st: &SystemTime) -> (r: Option<Timespec>)
    ensures
        match since_unix_epoch(*st) {
            None => r is None,
            Some(n) => r matches Some(ts) && ts.tv_sec == ((n / 1_000_000_000) as u64) as i64 && ts.tv_nsec == n
                % 1_000_000_000,
        },
{
    match duration_since_unix_epoch(st) {
        Some(_) => Some(system_time_to_timespec(st)),
        None => None,
    }
}

} // verus!
