//! Types of outside crates that values of the library carry.
use vstd::prelude::*;

use crate::time::duration_nanos;

verus! {

/// `anyhow::Error`, an error of any kind.
#[verifier::external_type_specification]
#[verifier::external_body]
pub struct ExAnyhowError(anyhow::Error);

/// `std::time::SystemTime`, a point in time of the system clock.
#[verifier::external_type_specification]
#[verifier::external_body]
pub struct ExSystemTime(std::time::SystemTime);

/// What `SystemTime::UNIX_EPOCH.checked_add(d)` gives for a duration `d` of `nanos`
/// nanoseconds: the point in time `d` after the Unix epoch, or none where the
/// platform's `SystemTime` cannot hold it.
pub uninterp spec fn unix_time_at(nanos: u128) -> Option<std::time::SystemTime>;

/// `SystemTime::UNIX_EPOCH.checked_add(d)`: the point in time `d` after the Unix
/// epoch, or `None` where it cannot be represented. The result is named as a
/// function of the duration's nanoseconds alone; of a point in time that it gives,
/// `duration_since(UNIX_EPOCH)` gives `d` back. Which durations fit is not stated.
#[verifier::external_body]
pub(crate) fn unix_time(d: std::time::Duration) -> (t: Option<std::time::SystemTime>)
    ensures
        t == unix_time_at(duration_nanos(d)),
        t matches Some(x) ==> since_unix_epoch(x) == Some(duration_nanos(d)),
{
    std::time::SystemTime::UNIX_EPOCH.checked_add(d)
}

/// What `t.duration_since(SystemTime::UNIX_EPOCH)` gives, in nanoseconds: how long
/// after the Unix epoch `t` is, or none for a time before it.
pub uninterp spec fn since_unix_epoch(t: std::time::SystemTime) -> Option<u128>;

/// `t.duration_since(SystemTime::UNIX_EPOCH)`, with its error (`t` is before the
/// epoch) as `None`. How long after the epoch `t` is, is named, not stated; adding
/// that duration to the epoch gives `t` again.
#[verifier::external_body]
pub(crate) fn duration_since_unix_epoch(t: &std::time::SystemTime) -> (r: Option<std::time::Duration>)
    ensures
        match r {
            Some(d) => since_unix_epoch(*t) == Some(duration_nanos(d)),
            None => since_unix_epoch(*t) is None,
        },
        r matches Some(d) ==> unix_time_at(duration_nanos(d)) == Some(*t),
{
    t.duration_since(std::time::SystemTime::UNIX_EPOCH).ok()
}

/// `anyhow::Error::msg`: an error whose message is `message`. The error is opaque,
/// so nothing is stated of it.
#[verifier::external_body]
pub(crate) fn error_message(message: &str) -> anyhow::Error {
    anyhow::Error::msg(message.to_string())
}

} // verus!
