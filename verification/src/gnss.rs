//! GNSS time keeping: the GNSS device setting, the time since the GPS epoch that a
//! u-blox receiver reports, and the conversion between that time and the
//! concentrator counter.
use std::time::Duration;
use vstd::prelude::*;
use vstd::string::*;

use crate::error::ConcentratorError;
use crate::outside::error_message;
use crate::time::{as_nanos, from_nanos_u128, from_secs, nanos, MAX_DURATION_NANOS, NANOS_PER_MICRO, NANOS_PER_SEC};

verus! {

/// How long a GNSS time reference stays usable after the pulse it was taken at (µs).
pub const GNSS_MAX_AGE: u32 = 30_000_000;

/// Nanoseconds in one GPS week.
pub const NANOS_PER_WEEK: i128 = 604_800_000_000_000;

/// The GNSS device of the configuration.
#[derive(Debug, Clone, PartialEq, Eq)]
pub enum Device {
    NoDevice,
    TtyPath(String),
    Gpsd(String),
}

impl Default for Device {
    fn default() -> (d: Self)
        ensures
            d is NoDevice,
    {
        Device::NoDevice
    }
}

#[derive(Debug, Clone, Copy, PartialEq, Eq, Structural)]
pub enum Family {
    Ublox,
    GenericNmea,
}

impl Default for Family {
    fn default() -> (f: Self)
        ensures
            f == Family::Ublox,
    {
        Family::Ublox
    }
}

/// The prefix that marks a gpsd host in the device setting.
pub open spec fn gpsd_prefix() -> Seq<char> {
    seq!['g', 'p', 's', 'd', ':', '/', '/']
}

/// `path` starts with the gpsd prefix.
pub open spec fn is_gpsd_path(path: Seq<char>) -> bool {
    path.len() >= 7 && path.take(7) == gpsd_prefix()
}

/// `d` is the device that the setting `path` names: none for an empty setting, the
/// gpsd host after the prefix `gpsd://`, and otherwise the path of a serial device.
pub open spec fn names_device(path: Seq<char>, d: Device) -> bool {
    if path.len() == 0 {
        d is NoDevice
    } else if is_gpsd_path(path) {
        d matches Device::Gpsd(host) && host@ == path.skip(7)
    } else {
        d matches Device::TtyPath(p) && p@ == path
    }
}

/// The setting that names the device `d`.
pub open spec fn device_setting(d: Device) -> Seq<char> {
    match d {
        Device::NoDevice => Seq::empty(),
        Device::TtyPath(p) => p@,
        Device::Gpsd(host) => gpsd_prefix() + host@,
    }
}

impl Device {
    pub fn new(path: &str) -> (d: Device)
        ensures
            names_device(path@, d),
    {
        let n = path.unicode_len();
        if n == 0 {
            return Device::NoDevice;
        }

        let prefix = "gpsd://";
        proof {
            reveal_strlit("gpsd://");
        }
        assert(prefix@ == gpsd_prefix());
        if n >= 7 {
            let mut i: usize = 0;
            let mut same = true;
            while i < 7 && same
                invariant
                    n == path@.len(),
                    n >= 7,
                    prefix@ == gpsd_prefix(),
                    i <= 7,
                    forall|j: int| 0 <= j < i ==> path@[j] == gpsd_prefix()[j],
                    !same ==> i < 7 && path@[i as int] != gpsd_prefix()[i as int],
                decreases 7 - i + (if same { 1int } else { 0int }),
            {
                if path.get_char(i) != prefix.get_char(i) {
                    same = false;
                } else {
                    i += 1;
                }
            }
            if same {
                assert(path@.take(7) == gpsd_prefix());
                return Device::Gpsd(path.substring_char(7, n).to_owned());
            }
            assert(path@.take(7)[i as int] != gpsd_prefix()[i as int]);
        }

        Device::TtyPath(path.to_owned())
    }

    /// The setting that names this device (as the configuration writes it).
    pub fn to_config_string(&self) -> (s: String)
        ensures
            s@ == device_setting(*self),
    {
        match self {
            Device::NoDevice => String::new(),
            Device::TtyPath(v) => v.clone(),
            Device::Gpsd(v) => {
                proof {
                    reveal_strlit("gpsd://");
                }
                String::from_str("gpsd://").concat(v.as_str())
            },
        }
    }
}

/// Reading a setting back from the device it names gives the setting itself.
pub proof fn lemma_setting_of_named_device(path: Seq<char>, d: Device)
    requires
        names_device(path, d),
    ensures
        device_setting(d) == path,
{
    if path.len() > 0 && is_gpsd_path(path) {
        assert(path == path.take(7) + path.skip(7));
    }
}

/// The setting of a device names that device again, for every device whose setting
/// can name it: a serial path that is not empty and does not start with the gpsd
/// prefix, any gpsd host, and no device.
pub proof fn lemma_named_device_of_setting(d: Device)
    requires
        d matches Device::TtyPath(p) ==> p@.len() > 0 && !is_gpsd_path(p@),
    ensures
        names_device(device_setting(d), d),
{
    if let Device::Gpsd(host) = d {
        let s = gpsd_prefix() + host@;
        assert(s.take(7) == gpsd_prefix());
        assert(s.skip(7) == host@);
    }
}

#[derive(Debug, Clone, Copy)]
pub struct GnssTimeSinceGpsEpoch {
    pub time_since_gps_epoch: Duration,
}

/// A time reference: the time since the GPS epoch at the pulse, and the
/// concentrator counter value at that pulse.
pub type EpochReference = Option<(GnssTimeSinceGpsEpoch, u32)>;

/// The time since the GPS epoch (ns) at counter value `count`, for the reference
/// `epoch` (ns) at counter value `at`.
pub open spec fn epoch_at_count(epoch: int, at: u32, count: u32) -> int {
    epoch + count.wrapping_sub(at) * 1000
}

/// The counter value at the time since the GPS epoch `time` (ns, not before the
/// reference), for the reference `epoch` (ns) at counter value `at`.
pub open spec fn count_at_epoch(epoch: int, at: u32, time: int) -> u32 {
    at.wrapping_add((((time - epoch) / 1000) % 0x1_0000_0000) as u32)
}

/// The reference is usable at `count`: it was taken at most the maximum age before.
pub open spec fn fresh(at: u32, count: u32) -> bool {
    count.wrapping_sub(at) <= GNSS_MAX_AGE
}

/// The time since the GPS epoch at the concentrator counter value `count_us`.
///
/// A reference older than the maximum age is dropped, and then there is none.
pub fn count_to_epoch(reference: &mut EpochReference, count_us: u32) -> (r: Option<Duration>)
    requires
        match *old(reference) {
            Some((e, at)) => fresh(at, count_us) ==> epoch_at_count(nanos(e.time_since_gps_epoch), at, count_us)
                <= MAX_DURATION_NANOS,
            None => true,
        },
    ensures
        match *old(reference) {
            None => r is None && *final(reference) is None,
            Some((e, at)) => if fresh(at, count_us) {
                &&& r matches Some(d) && nanos(d) == epoch_at_count(nanos(e.time_since_gps_epoch), at, count_us)
                &&& *final(reference) == *old(reference)
            } else {
                r is None && *final(reference) is None
            },
        },
{
    match *reference {
        Some((gps_epoch, gps_epoch_count_us)) => {
            let count_us_diff = count_us.wrapping_sub(gps_epoch_count_us);
            if count_us_diff > GNSS_MAX_AGE {
                *reference = None;
                return None;
            }
            Some(from_nanos_u128(as_nanos(gps_epoch.time_since_gps_epoch) + count_us_diff as u128 * NANOS_PER_MICRO))
        },
        None => None,
    }
}

/// The concentrator counter value at the time since the GPS epoch `gps_epoch_now`,
/// when there is a reference that is not later than that time.
pub fn epoch_to_count(reference: &EpochReference, gps_epoch_now: Duration) -> (r: Option<u32>)
    ensures
        match *reference {
            None => r is None,
            Some((e, at)) => if nanos(gps_epoch_now) >= nanos(e.time_since_gps_epoch) {
                r == Some(count_at_epoch(nanos(e.time_since_gps_epoch), at, nanos(gps_epoch_now)))
            } else {
                r is None
            },
        },
{
    match reference {
        Some((gps_epoch, gps_epoch_count_us)) => {
            let now = as_nanos(gps_epoch_now);
            let epoch = as_nanos(gps_epoch.time_since_gps_epoch);
            if now >= epoch {
                let diff_us = (now - epoch) / NANOS_PER_MICRO;
                Some(gps_epoch_count_us.wrapping_add((diff_us % 0x1_0000_0000) as u32))
            } else {
                None
            }
        },
        None => None,
    }
}

/// The counter value of the time at a counter value is that counter value again.
pub proof fn lemma_count_epoch_round_trip(epoch: int, at: u32, count: u32)
    ensures
        count_at_epoch(epoch, at, epoch_at_count(epoch, at, count)) == count,
{
    let diff = count.wrapping_sub(at);
    assert((diff * 1000) / 1000 == diff) by (nonlinear_arith);
    assert(diff as int % 0x1_0000_0000 == diff as int);
    assert(at.wrapping_add(diff) == count);
}

/// The time at the counter value of a time is that time, down to whole
/// microseconds, when the time is within the maximum age of the reference.
pub proof fn lemma_epoch_count_round_trip(epoch: int, at: u32, time: int)
    requires
        epoch <= time,
        (time - epoch) / 1000 <= GNSS_MAX_AGE,
    ensures
        fresh(at, count_at_epoch(epoch, at, time)),
        epoch_at_count(epoch, at, count_at_epoch(epoch, at, time)) == time - (time - epoch) % 1000,
{
    let us = (time - epoch) / 1000;
    assert(us % 0x1_0000_0000 == us);
    let c = at.wrapping_add(us as u32);
    assert(c.wrapping_sub(at) == us);
    assert(us * 1000 + (time - epoch) % 1000 == time - epoch) by (nonlinear_arith)
        requires
            us == (time - epoch) / 1000,
            epoch <= time,
    ;
}

/// The time of `d` rounded to the second closest to the pulse: up when more than
/// half a second past a whole second, down otherwise.
pub open spec fn rounded_seconds(d: int) -> int {
    d / 1_000_000_000 + if d % 1_000_000_000 > 500_000_000 { 1int } else { 0int }
}

/// Rounds a time since the GPS epoch to the second closest to the pulse. It is
/// possible that the GNSS module calculates the time before the pulse is triggered,
/// but that it is received after.
pub fn round_to_pulse(d: Duration) -> (r: Duration)
    requires
        rounded_seconds(nanos(d)) <= u64::MAX,
    ensures
        nanos(r) == rounded_seconds(nanos(d)) * 1_000_000_000,
{
    let n = as_nanos(d);
    let secs = n / NANOS_PER_SEC;
    let sub = n % NANOS_PER_SEC;
    let up: u128 = if sub > 500_000_000 { 1 } else { 0 };
    from_secs((secs + up) as u64)
}

/// Takes the time since the GPS epoch `v`, received for the pulse at counter value
/// `count_us_at_pps`, as the new time reference.
pub fn sync_time_since_gps_epoch(reference: &mut EpochReference, v: &GnssTimeSinceGpsEpoch, count_us_at_pps: u32)
    requires
        rounded_seconds(nanos(v.time_since_gps_epoch)) <= u64::MAX,
    ensures
        *final(reference) matches Some((e, at)) && at == count_us_at_pps && nanos(e.time_since_gps_epoch)
            == rounded_seconds(nanos(v.time_since_gps_epoch)) * 1_000_000_000,
{
    let rounded = GnssTimeSinceGpsEpoch { time_since_gps_epoch: round_to_pulse(v.time_since_gps_epoch) };
    *reference = Some((rounded, count_us_at_pps));
}

/// The time since the GPS epoch (ns) of GPS week `week`, time of week `itow` (ms)
/// and its fractional part `ftow` (ns).
pub open spec fn gps_time_nanos(week: i16, itow: u32, ftow: i32) -> int {
    week * 604_800_000_000_000 + itow * 1_000_000 + ftow
}

/// The result of a UBX-NAV-TIMEGPS message with validity flags `valid`: nothing
/// unless both the time of week and the week number are valid; an error for a time
/// before the GPS epoch; and otherwise the time since the epoch, in nanoseconds
/// modulo 2^64.
pub open spec fn nav_time_gps_result(valid: u8, week: i16, itow: u32, ftow: i32) -> Option<Option<int>> {
    if valid % 4 != 3 {
        Some(None)
    } else if gps_time_nanos(week, itow, ftow) < 0 {
        None
    } else {
        Some(Some(gps_time_nanos(week, itow, ftow) % 0x1_0000_0000_0000_0000))
    }
}

/// The time since the GPS epoch of a UBX-NAV-TIMEGPS message.
pub fn handle_ubx_nav_timegps(valid: u8, week: i16, itow: u32, ftow: i32) -> (r: Result<
    Option<GnssTimeSinceGpsEpoch>,
    ConcentratorError,
>)
    ensures
        match nav_time_gps_result(valid, week, itow, ftow) {
            None => r is Err,
            Some(None) => r matches Ok(None),
            Some(Some(n)) => r matches Ok(Some(t)) && nanos(t.time_since_gps_epoch) == n,
        },
{
    assert(valid & 3 == valid % 4) by (bit_vector);
    if valid & 3 != 3 {
        return Ok(None);
    }

    assert(-32768 * 604_800_000_000_000 <= week as int * 604_800_000_000_000 <= 32767 * 604_800_000_000_000) by (nonlinear_arith)
        requires
            -32768 <= week <= 32767,
    ;
    assert(itow as int * 1_000_000 <= 4_294_967_295 * 1_000_000) by (nonlinear_arith)
        requires
            itow <= 4_294_967_295u32,
    ;
    let week_ns = week as i128 * NANOS_PER_WEEK;
    let itow_ns = itow as i128 * 1_000_000;
    let ftow_ns = ftow as i128;

    let total_ns = week_ns + itow_ns + ftow_ns;

    if total_ns < 0 {
        return Err(ConcentratorError::Anyhow(error_message("Negative GPS time")));
    }

    let truncated = (total_ns as u128 % 0x1_0000_0000_0000_0000) as u64;
    Ok(Some(GnssTimeSinceGpsEpoch { time_since_gps_epoch: from_nanos_u128(truncated as u128) }))
}

/// The length of the whole UBX message that starts with `header` (its first six
/// bytes): the six header bytes, the payload whose length bytes 4 and 5 give
/// (little-endian), and the two checksum bytes.
pub fn ubx_message_len(header: &[u8]) -> (n: usize)
    requires
        header@.len() >= 6,
    ensures
        n == 6 + (header@[4] + header@[5] * 256) + 2,
{
    let len: usize = header[4] as usize + header[5] as usize * 256;
    6 + len + 2
}

/// The validity flags, week number, time of week (ms) and its fractional part (ns)
/// that `ublox`'s parser reads from the first UBX-NAV-TIMEGPS packet of `b`, if the
/// first packet it finds in `b` is one.
pub uninterp spec fn ubx_nav_time_gps(b: Seq<u8>) -> Option<(u8, i16, u32, i32)>;

/// Parses `b` with a new `ublox::Parser` (the default protocol, 23) and takes the
/// fields of the first packet when it is a UBX-NAV-TIMEGPS packet; the result is
/// named, not stated.
#[verifier::external_body]
fn parse_nav_time_gps(b: &[u8]) -> (r: Option<(u8, i16, u32, i32)>)
    ensures
        r == ubx_nav_time_gps(b@),
{
    let mut parser = ublox::Parser::default_proto();
    let mut it = parser.consume_ubx(b);
    match it.next() {
        Some(Ok(ublox::UbxPacket::Proto23(ublox::proto23::PacketRef::NavTimeGps(v)))) => {
            Some((v.valid().bits(), v.week(), v.itow(), v.ftow()))
        },
        _ => None,
    }
}

/// The time since the GPS epoch that the UBX message `b` carries, if it is a
/// UBX-NAV-TIMEGPS message.
pub fn parse_ubx(b: &[u8]) -> (r: Result<Option<GnssTimeSinceGpsEpoch>, ConcentratorError>)
    ensures
        match ubx_nav_time_gps(b@) {
            None => r matches Ok(None),
            Some((valid, week, itow, ftow)) => match nav_time_gps_result(valid, week, itow, ftow) {
                None => r is Err,
                Some(None) => r matches Ok(None),
                Some(Some(n)) => r matches Ok(Some(t)) && nanos(t.time_since_gps_epoch) == n,
            },
        },
{
    match parse_nav_time_gps(b) {
        Some((valid, week, itow, ftow)) => handle_ubx_nav_timegps(valid, week, itow, ftow),
        None => Ok(None),
    }
}


/// The time at a counter value advances with the counter: at the reference's counter
/// value it is the reference's time, and one more microsecond on the counter (short
/// of a full turn after the reference) is 1000 ns more; the counter value of a time
/// goes the other way, one microsecond per 1000 ns.
pub proof fn lemma_epoch_counter_rate(epoch: int, at: u32, count: u32, time: int)
    requires
        count.wrapping_sub(at) < u32::MAX,
        epoch <= time,
    ensures
        epoch_at_count(epoch, at, at) == epoch,
        epoch_at_count(epoch, at, count.wrapping_add(1)) == epoch_at_count(epoch, at, count) + 1000,
        count_at_epoch(epoch, at, epoch) == at,
        count_at_epoch(epoch, at, time + 1000) == count_at_epoch(epoch, at, time).wrapping_add(1),
{
    assert(at.wrapping_sub(at) == 0) by (bit_vector);
    let d = count.wrapping_sub(at);
    assert(count.wrapping_add(1).wrapping_sub(at) == d + 1) by (bit_vector)
        requires
            d == count.wrapping_sub(at),
            d < 0xffff_ffffu32,
    ;
    let us = (time - epoch) / 1000;
    assert((time + 1000 - epoch) / 1000 == us + 1);
    let a = (us % 0x1_0000_0000) as u32;
    let b = ((us + 1) % 0x1_0000_0000) as u32;
    assert(b == a.wrapping_add(1));
    assert(at.wrapping_add(b) == at.wrapping_add(a).wrapping_add(1)) by (bit_vector)
        requires
            b == a.wrapping_add(1),
    ;
    assert(at.wrapping_add(0) == at) by (bit_vector);
}

/// A UBX-NAV-TIMEGPS time counts weeks of 604800 s, milliseconds of the week and
/// nanoseconds past them: one more week is 604800 s more, one more millisecond of
/// the week 1 ms more, one more nanosecond 1 ns more.
pub proof fn lemma_gps_time_units(week: i16, itow: u32, ftow: i32)
    requires
        week < i16::MAX,
        itow < u32::MAX,
        ftow < i32::MAX,
    ensures
        gps_time_nanos(0, 0, 0) == 0,
        gps_time_nanos((week + 1) as i16, itow, ftow) == gps_time_nanos(week, itow, ftow) + 604_800_000_000_000,
        gps_time_nanos(week, (itow + 1) as u32, ftow) == gps_time_nanos(week, itow, ftow) + 1_000_000,
        gps_time_nanos(week, itow, (ftow + 1) as i32) == gps_time_nanos(week, itow, ftow) + 1,
{
}

} // verus!
