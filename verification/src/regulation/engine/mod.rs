//! The items of the regulation engine, and how it shows times.
use std::time::Duration;
use vstd::prelude::*;

use crate::jitqueue;
use crate::text::{write_zero_padded, zero_padded};
use vstd::string::*;
use crate::time::{as_nanos, nanos};

pub mod item;

verus! {

/// A queued packet as the regulation engine sees it: the packet, the time it is
/// sent, its time on air, and whether its load was already counted.
#[derive(Copy, Clone)]
pub struct Item<T> {
    pub packet: T,
    pub time: Duration,
    pub airtime: Duration,
    pub aggregated: bool,
}

impl<T: Copy> Item<T> {
    /// The engine's item for a packet of the just-in-time queue: sent at the queue's
    /// linear time, for its time on air, not counted yet.
    pub fn new(item: &jitqueue::Item<T>) -> (r: Item<T>)
        ensures
            r.packet == item.spec_packet(),
            nanos(r.time) == item.spec_linear_count(),
            nanos(r.airtime) == item.spec_post_delay(),
            !r.aggregated,
    {
        Item { packet: *item.packet(), time: item.linear_count(), airtime: item.post_delay(), aggregated: false }
    }
}

/// A duration shown as hours, minutes, seconds and milliseconds.
pub struct DurationDisplay(pub Duration);

/// The hours, minutes, seconds and milliseconds of `n` nanoseconds.
pub open spec fn clock_parts(n: int) -> (int, int, int, int) {
    let seconds = n / 1_000_000_000;
    (seconds / 3600, (seconds / 60) % 60, seconds % 60, (n % 1_000_000_000) / 1_000_000)
}

/// `HH:MM:SS.mmm`: each part zero-padded, with the separators between them.
fn format_clock(hours: u64, minutes: u64, seconds: u64, millis: u32) -> (s: String)
    ensures
        s@ == zero_padded(hours as nat, 2) + ":"@ + zero_padded(minutes as nat, 2) + ":"@ + zero_padded(
            seconds as nat,
            2,
        ) + "."@ + zero_padded(millis as nat, 3),
{
    let colon = ":";
    let dot = ".";
    let mut out = String::new();
    write_zero_padded(&mut out, hours, 2);
    out.append(colon);
    write_zero_padded(&mut out, minutes, 2);
    out.append(colon);
    write_zero_padded(&mut out, seconds, 2);
    out.append(dot);
    write_zero_padded(&mut out, millis as u64, 3);
    assert(out@ =~= zero_padded(hours as nat, 2) + ":"@ + zero_padded(minutes as nat, 2) + ":"@ + zero_padded(
        seconds as nat,
        2,
    ) + "."@ + zero_padded(millis as nat, 3));
    out
}

impl DurationDisplay {
    /// The hours, minutes, seconds and milliseconds of the duration.
    pub fn parts(&self) -> (r: (u64, u64, u64, u32))
        ensures
            (r.0 as int, r.1 as int, r.2 as int, r.3 as int) == clock_parts(nanos(self.0)),
    {
        let n = as_nanos(self.0);
        let mut seconds = (n / 1_000_000_000) as u64;
        let millis = ((n % 1_000_000_000) / 1_000_000) as u32;

        let mut minutes = seconds / 60;
        seconds = seconds % 60;

        let hours = minutes / 60;
        minutes = minutes % 60;
        assert((n / 1_000_000_000) as int / 60 / 60 == (n / 1_000_000_000) as int / 3600) by (nonlinear_arith);
        (hours, minutes, seconds, millis)
    }

    /// The duration as `HH:MM:SS.mmm`.
    pub fn to_string(&self) -> (s: String)
        ensures
            ({
                let (h, m, sec, ms) = clock_parts(nanos(self.0));
                s@ == zero_padded(h as nat, 2) + ":"@ + zero_padded(m as nat, 2) + ":"@ + zero_padded(sec as nat, 2)
                    + "."@ + zero_padded(ms as nat, 3)
            }),
    {
        let (hours, minutes, seconds, millis) = self.parts();
        format_clock(hours, minutes, seconds, millis)
    }
}


/// The clock parts of `n` nanoseconds are its whole hours, the minutes and seconds
/// past them (each below 60) and the milliseconds past those (below 1000), and
/// together they are `n` down to the last millisecond.
pub proof fn lemma_clock_parts(n: int)
    requires
        n >= 0,
    ensures
        ({
            let (h, m, s, ms) = clock_parts(n);
            &&& 0 <= m < 60
            &&& 0 <= s < 60
            &&& 0 <= ms < 1000
            &&& h >= 0
            &&& h * 3_600_000_000_000 + m * 60_000_000_000 + s * 1_000_000_000 + ms * 1_000_000 <= n
            &&& n < h * 3_600_000_000_000 + m * 60_000_000_000 + s * 1_000_000_000 + (ms + 1) * 1_000_000
        }),
{
    let secs = n / 1_000_000_000;
    let h = secs / 3600;
    let m = (secs / 60) % 60;
    let s = secs % 60;
    let ms = (n % 1_000_000_000) / 1_000_000;
    assert(secs / 60 == h * 60 + m) by (nonlinear_arith)
        requires
            h == secs / 3600,
            m == (secs / 60) % 60,
            secs >= 0,
    ;
    assert(secs == (secs / 60) * 60 + s);
    assert(n == secs * 1_000_000_000 + n % 1_000_000_000);
    assert(n % 1_000_000_000 == ms * 1_000_000 + (n % 1_000_000_000) % 1_000_000);
}

} // verus!
