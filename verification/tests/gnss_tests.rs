use std::time::Duration;

use concentratord::gnss::{
    count_to_epoch, epoch_to_count, handle_ubx_nav_timegps, parse_ubx, round_to_pulse,
    sync_time_since_gps_epoch, ubx_message_len, Device, EpochReference, Family, GnssTimeSinceGpsEpoch,
};

#[test]
fn test_device_none() {
    assert_eq!(Device::NoDevice, Device::new(""));
}

#[test]
fn test_device_tty_path() {
    assert_eq!(Device::TtyPath("/dev/ttyAMA0".to_string()), Device::new("/dev/ttyAMA0"));
}

#[test]
fn test_device_gpsd() {
    assert_eq!(Device::Gpsd("localhost:2947".to_string()), Device::new("gpsd://localhost:2947"));
}

#[test]
fn gnss_device_setting_round_trip() {
    for s in ["", "/dev/ttyACM0", "gpsd://localhost:2947", "gpsd://", "gpsd:/x"] {
        assert_eq!(s, Device::new(s).to_config_string());
    }
    assert_eq!(Device::TtyPath("gpsd:/x".to_string()), Device::new("gpsd:/x"));
    assert_eq!(Device::Gpsd("".to_string()), Device::new("gpsd://"));
    assert_eq!(Device::NoDevice, Device::default());
    assert_eq!(Family::Ublox, Family::default());
}

fn reference(epoch: Duration, count_us: u32) -> EpochReference {
    Some((GnssTimeSinceGpsEpoch { time_since_gps_epoch: epoch }, count_us))
}

#[test]
fn gnss_count_to_epoch() {
    let mut r = reference(Duration::from_secs(1000), u32::MAX - 9);
    // 10 µs later, past the roll-over of the counter
    assert_eq!(Some(Duration::from_secs(1000) + Duration::from_micros(10)), count_to_epoch(&mut r, 0));
    assert!(r.is_some());
    // 30 s is the maximum age
    assert_eq!(
        Some(Duration::from_secs(1030)),
        count_to_epoch(&mut r, (u32::MAX - 9).wrapping_add(30_000_000))
    );
    // older than that, the reference is dropped
    assert_eq!(None, count_to_epoch(&mut r, (u32::MAX - 9).wrapping_add(30_000_001)));
    assert!(r.is_none());
    assert_eq!(None, count_to_epoch(&mut r, 0));
}

#[test]
fn gnss_epoch_to_count() {
    let r = reference(Duration::from_secs(1000), u32::MAX - 9);
    assert_eq!(Some(u32::MAX - 9), epoch_to_count(&r, Duration::from_secs(1000)));
    assert_eq!(Some(5), epoch_to_count(&r, Duration::from_secs(1000) + Duration::from_nanos(15_999)));
    assert_eq!(None, epoch_to_count(&r, Duration::from_secs(999)));
    assert_eq!(None, epoch_to_count(&None, Duration::from_secs(1000)));
}

#[test]
fn gnss_round_trip_between_counter_and_epoch() {
    let mut r = reference(Duration::from_secs(1000), 123);
    let t = count_to_epoch(&mut r, 5_000_123).unwrap();
    assert_eq!(Some(5_000_123), epoch_to_count(&r, t));
}

#[test]
fn gnss_sync_rounds_to_the_pulse() {
    assert_eq!(Duration::from_secs(10), round_to_pulse(Duration::from_millis(10_500)));
    assert_eq!(Duration::from_secs(11), round_to_pulse(Duration::from_millis(10_501)));
    let mut r: EpochReference = None;
    sync_time_since_gps_epoch(
        &mut r,
        &GnssTimeSinceGpsEpoch { time_since_gps_epoch: Duration::from_millis(1_999) },
        42,
    );
    let (e, c) = r.unwrap();
    assert_eq!(Duration::from_secs(2), e.time_since_gps_epoch);
    assert_eq!(42, c);
}

#[test]
fn gnss_nav_time_gps() {
    // week 2000, 100 s into the week, and 250 ns
    let t = handle_ubx_nav_timegps(0x03, 2000, 100_000, 250).unwrap().unwrap();
    assert_eq!(
        Duration::from_secs(2000 * 604_800 + 100) + Duration::from_nanos(250),
        t.time_since_gps_epoch
    );
    // the fractional part may be negative
    let t = handle_ubx_nav_timegps(0x07, 0, 1, -400_000).unwrap().unwrap();
    assert_eq!(Duration::from_nanos(600_000), t.time_since_gps_epoch);
    // without a valid week number or time of week, there is no time
    assert!(handle_ubx_nav_timegps(0x01, 2000, 100_000, 250).unwrap().is_none());
    assert!(handle_ubx_nav_timegps(0x02, 2000, 100_000, 250).unwrap().is_none());
    // a time before the epoch is an error
    assert!(handle_ubx_nav_timegps(0x03, -1, 0, 0).is_err());
}

fn ubx_nav_time_gps(itow: u32, ftow: i32, week: i16, valid: u8) -> Vec<u8> {
    let mut payload = Vec::new();
    payload.extend_from_slice(&itow.to_le_bytes());
    payload.extend_from_slice(&ftow.to_le_bytes());
    payload.extend_from_slice(&week.to_le_bytes());
    payload.push(18);
    payload.push(valid);
    payload.extend_from_slice(&10u32.to_le_bytes());
    let mut frame = vec![0xb5, 0x62, 0x01, 0x20, 16, 0];
    frame.extend_from_slice(&payload);
    let (mut a, mut b) = (0u8, 0u8);
    for x in &frame[2..] {
        a = a.wrapping_add(*x);
        b = b.wrapping_add(a);
    }
    frame.push(a);
    frame.push(b);
    frame
}

#[test]
fn gnss_parse_ubx() {
    let frame = ubx_nav_time_gps(100_000, 250, 2000, 0x07);
    let t = parse_ubx(&frame).unwrap().unwrap();
    assert_eq!(
        Duration::from_secs(2000 * 604_800 + 100) + Duration::from_nanos(250),
        t.time_since_gps_epoch
    );
    // not a UBX message
    assert!(parse_ubx(b"$GPGGA").unwrap().is_none());
}

#[test]
fn ubx_message_length_from_header() {
    // UBX-NAV-TIMEGPS: class 0x01, id 0x20, payload of 16 bytes.
    assert_eq!(24, ubx_message_len(&[0xb5, 0x62, 0x01, 0x20, 0x10, 0x00]));
    // The length is little-endian: 0x0102 payload bytes.
    assert_eq!(8 + 258, ubx_message_len(&[0xb5, 0x62, 0x0a, 0x04, 0x02, 0x01, 0xff]));
}
