use std::time::Duration;

use concentratord::error::ConcentratorError;
use concentratord::regulation::dutycycle::{Item, Tracker};
use concentratord::regulation::standard::{self, Band, Configuration, Regulation, Standard};
use concentratord::regulation::tracker;

fn item(start: u64, end: u64) -> Item {
    Item { start_time: Duration::from_secs(start), end_time: Duration::from_secs(end) }
}

#[test]
fn test_item_duration() {
    let i = Item { start_time: Duration::from_secs(10), end_time: Duration::from_secs(11) };

    assert_eq!(i.duration(), Duration::from_secs(1))
}

#[test]
fn test_overlapping_duration() {
    struct Test {
        name: String,
        item: Item,
        start_time: Duration,
        end_time: Duration,
        expected: Duration,
    }

    let tests = vec![
        Test {
            name: "full remaining".into(),
            item: item(90, 100),
            start_time: Duration::from_secs(90),
            end_time: Duration::from_secs(100),
            expected: Duration::from_secs(10),
        },
        Test {
            name: "full remaining".into(),
            item: item(90, 100),
            start_time: Duration::from_secs(80),
            end_time: Duration::from_secs(110),
            expected: Duration::from_secs(10),
        },
        Test {
            name: "take first half".into(),
            item: item(90, 100),
            start_time: Duration::from_secs(90),
            end_time: Duration::from_secs(95),
            expected: Duration::from_secs(5),
        },
        Test {
            name: "take second half".into(),
            item: item(90, 100),
            start_time: Duration::from_secs(95),
            end_time: Duration::from_secs(105),
            expected: Duration::from_secs(5),
        },
        Test {
            name: "take past".into(),
            item: item(90, 100),
            start_time: Duration::from_secs(80),
            end_time: Duration::from_secs(90),
            expected: Duration::from_secs(0),
        },
        Test {
            name: "take future".into(),
            item: item(90, 100),
            start_time: Duration::from_secs(100),
            end_time: Duration::from_secs(110),
            expected: Duration::from_secs(0),
        },
    ];

    for tst in &tests {
        assert_eq!(
            tst.expected,
            tst.item.overlapping_duration(tst.start_time, tst.end_time),
            "test: {}",
            tst.name
        );
    }
}

#[test]
fn test_tracker_cleanup() {
    let mut t = Tracker::with_items(
        Duration::from_secs(10),
        Duration::ZERO,
        true,
        vec![item(0, 1), item(89, 90), item(90, 91), item(109, 110), item(110, 111)],
    );

    t.cleanup(Duration::from_secs(100));

    assert_eq!(t.items(), &vec![item(90, 91), item(109, 110)]);
}

#[test]
fn test_tracker_cleanup_overlap() {
    let mut t =
        Tracker::with_items(Duration::from_secs(10), Duration::ZERO, true, vec![item(85, 95), item(105, 115)]);

    t.cleanup(Duration::from_secs(100));

    assert_eq!(t.items(), &vec![item(85, 95), item(105, 115)]);
}

#[test]
fn test_tracker_tracked_duration() {
    struct Test {
        name: String,
        window: Duration,
        items: Vec<Item>,
        time: Duration,
        expected: Duration,
    }

    let tests = vec![
        Test {
            name: "capture full item".into(),
            window: Duration::from_secs(60 * 60),
            items: vec![item(3564, 3600)],
            time: Duration::from_secs(3600),
            expected: Duration::from_secs(36),
        },
        Test {
            name: "capture partial item (cutting at the end)".into(),
            window: Duration::from_secs(60 * 60),
            items: vec![item(3564, 3600)],
            time: Duration::from_secs(3600 - 18),
            expected: Duration::from_secs(18),
        },
        Test {
            name: "capture partial item (cutting at the beginning)".into(),
            window: Duration::from_secs(60 * 60),
            items: vec![item(3564, 3600)],
            time: Duration::from_secs(3582 + 3600),
            expected: Duration::from_secs(18),
        },
    ];

    for tst in &tests {
        let t = Tracker::with_items(tst.window, Duration::ZERO, true, tst.items.clone());

        assert_eq!(tst.expected, t.tracked_duration(tst.time), "test: {}", tst.name);
    }
}

#[test]
fn test_tracker_try_insert() {
    struct Test {
        name: String,
        window: Duration,
        max_duration: Duration,
        items: Vec<Item>,
        insert_item: Item,
        can_insert: bool,
    }

    let tests = vec![
        // The tracker is empty and the inserted item has exactly the
        // max tracker duration.
        Test {
            name: "empty tracker - item fits".into(),
            window: Duration::from_secs(3600),
            max_duration: Duration::from_secs(36),
            items: vec![],
            insert_item: item(0, 36),
            can_insert: true,
        },
        // The tracker is empty, but the item does not fit as the duration
        // exceeds the max tracker duration.
        Test {
            name: "empty tracker - item exceeds max duration".into(),
            window: Duration::from_secs(3600),
            max_duration: Duration::from_secs(36),
            items: vec![],
            insert_item: item(0, 37),
            can_insert: false,
        },
        // There are two items tracked (24s), the inserted item still fits.
        Test {
            name: "item fits".into(),
            window: Duration::from_secs(3600),
            max_duration: Duration::from_secs(36),
            items: vec![item(0, 12), item(20, 32)],
            insert_item: item(40, 52),
            can_insert: true,
        },
        // There are three items (36s) and within the same window the item
        // will thus not fit.
        Test {
            name: "item does not fit".into(),
            window: Duration::from_secs(3600),
            max_duration: Duration::from_secs(36),
            items: vec![item(0, 12), item(20, 32), item(40, 52)],
            insert_item: item(60, 61),
            can_insert: false,
        },
        // During the start/end time of the inserted item, the first
        // existing item slides out of the tracked window thus it can
        // be inserted as it "frees up 12sec".
        Test {
            name: "1st item slides out of window - item fits".into(),
            window: Duration::from_secs(3600),
            max_duration: Duration::from_secs(36),
            items: vec![item(0, 12), item(20, 32), item(40, 52)],
            insert_item: item(3600, 3612),
            can_insert: true,
        },
        // Same as the previous test, but while 12sec is beeing "freed up",
        // we try to insert an item with a duration of 13sec which exceeds
        // the available max duration.
        Test {
            name: "1st item slides out of window - item does not fit".into(),
            window: Duration::from_secs(3600),
            max_duration: Duration::from_secs(36),
            items: vec![item(0, 12), item(20, 32), item(40, 52)],
            insert_item: item(3600, 3613),
            can_insert: false,
        },
        // At the moment of insert, the first item slides out of the window,
        // however, it would make the item at 3612 exceed the max duration.
        Test {
            name: "1st item slides out of window - item does not fit because of future item".into(),
            window: Duration::from_secs(3600),
            max_duration: Duration::from_secs(36),
            items: vec![item(0, 12), item(20, 32), item(40, 52), item(3612, 3624)],
            insert_item: item(3600, 3612),
            can_insert: false,
        },
        // At the moment of insert the first item slides out of the window.
        // The future item scheduled at 3620 can still be transmitted as
        // during that time, the second item (20) slides out of the window.
        Test {
            name: "1st two item slides out of window - item does fit".into(),
            window: Duration::from_secs(3600),
            max_duration: Duration::from_secs(36),
            items: vec![item(0, 12), item(20, 32), item(40, 52), item(3620, 3632)],
            insert_item: item(3600, 3612),
            can_insert: true,
        },
    ];

    for tst in &tests {
        let mut t = Tracker::with_items(tst.window, tst.max_duration, true, tst.items.clone());

        assert_eq!(tst.can_insert, t.try_insert(tst.insert_item.clone()).is_ok(), "test: {}", tst.name);

        if tst.can_insert {
            assert_eq!(&tst.insert_item, t.items().last().unwrap());
        }
    }
}

#[test]
fn dutycycle_refusals_name_their_reason() {
    let mut t = Tracker::with_items(Duration::from_secs(3600), Duration::from_secs(36), true, vec![item(3612, 3624)]);
    assert!(matches!(t.try_insert(item(0, 37)), Err(ConcentratorError::DutyCycle)));
    // fits at its own end, but not at the end of the later item
    assert!(matches!(t.try_insert(item(3000, 3030)), Err(ConcentratorError::DutyCycleFutureItems)));
    assert_eq!(1, t.items().len());
    // a tracker that does not enforce takes everything
    let mut t = Tracker::new(Duration::from_secs(3600), Duration::from_secs(36), false);
    assert!(t.try_insert(item(0, 100)).is_ok());
    assert_eq!(Duration::from_secs(100), t.tracked_duration(Duration::from_secs(100)));
}

#[test]
fn test_get_band() {
    struct Test {
        name: String,
        freq: u32,
        tx_power_eirp: i8,
        expected_band: Option<Band>,
    }

    let tests = vec![Test {
        name: "M band".into(),
        freq: 868100000,
        tx_power_eirp: 16,
        expected_band: Some(Band {
            label: "M".into(),
            frequency_min: 868000000,
            frequency_max: 868600000,
            duty_cycle_permille_max: 10,
            tx_power_max_eirp: 16,
        }),
    }];

    let c = Configuration::new(Standard::ETSI_EN_300_220);
    for tst in &tests {
        println!("> {}", tst.name);

        let res = c.get_band(tst.freq, tst.tx_power_eirp);
        if tst.expected_band.is_none() {
            assert!(res.is_err());
        } else {
            assert_eq!(tst.expected_band.as_ref().unwrap(), res.as_ref().unwrap());
        }
    }
}

#[test]
fn standard_band_lookup() {
    let c = standard::get(Standard::ETSI_EN_300_220);
    assert_eq!(Regulation::EtsiEn300220, c.get_regulation());
    assert_eq!(Duration::from_secs(3600), c.window_time);
    assert_eq!(7, c.bands.len());
    // the bands overlap at 869.7 MHz: the first that allows the power wins
    assert_eq!("P", c.get_band(869_800_000, 9).unwrap().label);
    assert_eq!(1000, c.get_band(869_800_000, 9).unwrap().duty_cycle_permille_max);
    assert_eq!("Q", c.get_band(869_800_000, 16).unwrap().label);
    assert!(matches!(c.get_band(869_800_000, 17), Err(ConcentratorError::BandNotFound(869_800_000, 17))));
    // the upper bound is not in the band
    assert!(c.get_band(865_000_000, 16).unwrap().label == "L");
    assert_eq!("ETSI_EN_300_220", Standard::ETSI_EN_300_220.name());
}

struct TestItem {
    tx_freq: u32,
    tx_power_eirp: i8,
    start_time: Duration,
    end_time: Duration,
}

struct TrackerTest {
    name: String,
    items: Vec<TestItem>,
    ok: bool,
}

#[test]
fn test_etsi_en_300_220() {
    let tests = vec![
        TrackerTest {
            name: "K - 0.1%".into(),
            items: vec![TestItem {
                tx_freq: 863000000,
                tx_power_eirp: 16,
                start_time: Duration::from_millis(0),
                end_time: Duration::from_millis(3600),
            }],
            ok: true,
        },
        TrackerTest {
            name: "K - > 0.1%".into(),
            items: vec![TestItem {
                tx_freq: 863000000,
                tx_power_eirp: 16,
                start_time: Duration::from_millis(0),
                end_time: Duration::from_millis(3601),
            }],
            ok: false,
        },
        TrackerTest {
            name: "M - 1%".into(),
            items: vec![TestItem {
                tx_freq: 868000000,
                tx_power_eirp: 16,
                start_time: Duration::from_millis(0),
                end_time: Duration::from_millis(36000),
            }],
            ok: true,
        },
        TrackerTest {
            name: "M - >1%".into(),
            items: vec![TestItem {
                tx_freq: 868000000,
                tx_power_eirp: 16,
                start_time: Duration::from_millis(0),
                end_time: Duration::from_millis(36001),
            }],
            ok: false,
        },
        TrackerTest {
            name: "L - 1% - M 1%".into(),
            items: vec![
                TestItem {
                    tx_freq: 865000000,
                    tx_power_eirp: 16,
                    start_time: Duration::from_millis(0),
                    end_time: Duration::from_millis(36000),
                },
                TestItem {
                    tx_freq: 868000000,
                    tx_power_eirp: 16,
                    start_time: Duration::from_millis(36000),
                    end_time: Duration::from_millis(72000),
                },
            ],
            ok: true,
        },
        TrackerTest {
            name: "Invalid freq".into(),
            items: vec![TestItem {
                tx_freq: 920000000,
                tx_power_eirp: 16,
                start_time: Duration::from_millis(0),
                end_time: Duration::from_millis(1),
            }],
            ok: false,
        },
        TrackerTest {
            name: "K - invalid tx_power".into(),
            items: vec![TestItem {
                tx_freq: 863000000,
                tx_power_eirp: 17,
                start_time: Duration::from_millis(0),
                end_time: Duration::from_millis(3600),
            }],
            ok: false,
        },
        TrackerTest {
            name: "K - lower tx_power (valid)".into(),
            items: vec![TestItem {
                tx_freq: 863000000,
                tx_power_eirp: 12,
                start_time: Duration::from_millis(0),
                end_time: Duration::from_millis(3600),
            }],
            ok: true,
        },
    ];

    for tst in &tests {
        let conf = standard::Configuration::new(standard::Standard::ETSI_EN_300_220);
        let mut tracker = tracker::Tracker::new(conf, true);
        for item in &tst.items {
            assert_eq!(
                tst.ok,
                tracker
                    .try_insert(
                        item.tx_freq,
                        item.tx_power_eirp,
                        Item { start_time: item.start_time, end_time: item.end_time }
                    )
                    .is_ok(),
                "{}",
                tst.name,
            );
        }
    }
}

#[test]
fn regulation_tracker_per_band() {
    let conf = standard::Configuration::new(Standard::ETSI_EN_300_220);
    let mut t = tracker::Tracker::new(conf, true);
    assert_eq!(Duration::from_secs(3600), t.get_window());
    assert_eq!(Regulation::EtsiEn300220, t.get_regulation());
    assert!(t.get_tracked_durations(Duration::from_secs(10)).is_empty());
    // 1% of an hour in band M, then in band L
    t.try_insert(868_000_000, 16, Item { start_time: Duration::ZERO, end_time: Duration::from_secs(36) }).unwrap();
    t.try_insert(865_000_000, 16, Item { start_time: Duration::ZERO, end_time: Duration::from_secs(20) }).unwrap();
    let d = t.get_tracked_durations(Duration::from_secs(40));
    assert_eq!(2, d.len());
    assert_eq!("L", d[0].0.label);
    assert_eq!(Duration::from_secs(20), d[0].1);
    assert_eq!("M", d[1].0.label);
    assert_eq!(Duration::from_secs(36), d[1].1);
    // M is full for the hour
    assert!(matches!(
        t.try_insert(868_100_000, 16, Item { start_time: Duration::from_secs(50), end_time: Duration::from_secs(51) }),
        Err(ConcentratorError::DutyCycle)
    ));
    // after the window the items are cleaned up
    t.cleanup(Duration::from_secs(2 * 3600));
    assert!(t.get_tracked_durations(Duration::from_secs(2 * 3600)).iter().all(|(_, d)| d.is_zero()));
}

#[test]
fn dutycycle_cleanup_keeps_what_still_counts() {
    let mut t = Tracker::with_items(
        Duration::from_secs(3600),
        Duration::from_secs(360),
        true,
        vec![item(0, 1), item(1800, 1801), item(3000, 3002), item(9000, 9010)],
    );
    let cur = Duration::from_secs(3601);
    let now = t.tracked_duration(cur);
    let later = t.tracked_duration(Duration::from_secs(5400));
    t.cleanup(cur);
    assert_eq!(vec![item(1800, 1801), item(3000, 3002)], *t.items());
    assert_eq!(Duration::from_secs(3), now);
    assert_eq!(now, t.tracked_duration(cur));
    assert_eq!(later, t.tracked_duration(Duration::from_secs(5400)));
}

#[test]
fn dutycycle_overlap_of_a_window_inside_the_item() {
    let i = item(90, 100);
    assert_eq!(Duration::from_secs(3), i.overlapping_duration(Duration::from_secs(92), Duration::from_secs(95)));
    // a window that ends before it starts overlaps nothing
    assert_eq!(Duration::ZERO, i.overlapping_duration(Duration::from_secs(95), Duration::from_secs(92)));
}

#[test]
fn dutycycle_not_enforcing_takes_any_item() {
    let mut t = Tracker::new(Duration::from_secs(3600), Duration::from_secs(36), false);
    assert!(t.try_insert(item(20, 10)).is_ok());
    assert_eq!(vec![item(20, 10)], *t.items());
    // the item lies wholly after the window that ends at 5 s
    assert_eq!(Duration::ZERO, t.tracked_duration(Duration::from_secs(5)));
}
