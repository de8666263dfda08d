use std::collections::HashMap;
use std::time::Duration;

use concentratord::c_string::c_path;
use concentratord::gpsd::{ublox_config_command, GpsdDevice};
use concentratord::helpers::ToConcentratorCount;
use concentratord::regulation::engine::DurationDisplay;
use concentratord::reset::{reset_steps, ResetPin, ResetSetup, ResetStep};
use concentratord::stats::{same_modulation, Modulation, ModulationParameters, Stats};
use concentratord::status::TxAckStatus;

fn lora(spreading_factor: u32, code_rate_legacy: &str) -> Option<Modulation> {
    Some(Modulation {
        parameters: Some(ModulationParameters::LoRa {
            bandwidth: 125000,
            spreading_factor,
            code_rate_legacy: code_rate_legacy.to_string(),
            code_rate: 1,
            polarization_inversion: false,
            preamble: 8,
            no_crc: false,
        }),
    })
}

#[test]
fn stats_counts() {
    let mut s = Stats::new();
    s.inc_rx_packets_received();
    s.inc_rx_packets_received();
    s.inc_tx_packets_received();
    s.inc_rx_counts(Some((868_100_000, lora(7, ""))));
    s.inc_rx_counts(Some((868_100_000, lora(7, ""))));
    s.inc_rx_counts(Some((868_300_000, lora(9, ""))));
    s.inc_rx_counts(None);
    s.inc_tx_counts(869_525_000, lora(12, ""));
    s.inc_tx_status_count(TxAckStatus::Programmed);
    s.inc_tx_status_count(TxAckStatus::TooLate);
    s.inc_tx_status_count(TxAckStatus::Programmed);
    assert_eq!(2, s.rx_packets_received);
    assert_eq!(4, s.rx_packets_received_ok);
    assert_eq!(1, s.tx_packets_received);
    assert_eq!(1, s.tx_packets_emitted);
    assert_eq!(
        HashMap::from([(868_100_000, 2), (868_300_000, 1)]),
        s.rx_packets_per_frequency
    );
    assert_eq!(HashMap::from([(869_525_000, 1)]), s.tx_packets_per_frequency);
    assert_eq!(
        HashMap::from([(TxAckStatus::Programmed.code(), 2), (TxAckStatus::TooLate.code(), 1)]),
        s.tx_packets_per_status
    );
    assert_eq!(1, TxAckStatus::Programmed.code());
    assert_eq!(11, TxAckStatus::DutyCycleOverflow.code());
    assert_eq!(vec![(lora(7, ""), 2), (lora(9, ""), 1)], s.rx_packets_per_modulation);
    assert_eq!(vec![(lora(12, ""), 1)], s.tx_packets_per_modulation);

    let taken = s.take();
    assert_eq!(2, taken.rx_packets_received);
    assert_eq!(0, s.rx_packets_received);
    assert!(s.rx_packets_per_frequency.is_empty());
    assert!(s.rx_packets_per_modulation.is_empty());
}

#[test]
fn stats_modulations_differ_by_every_field() {
    let mut s = Stats::new();
    s.inc_rx_counts(Some((868_100_000, lora(7, ""))));
    // the legacy code rate text tells two modulations apart
    s.inc_rx_counts(Some((868_100_000, lora(7, "4/5"))));
    s.inc_rx_counts(Some((868_100_000, None)));
    s.inc_rx_counts(Some((868_100_000, Some(Modulation { parameters: None }))));
    s.inc_rx_counts(Some((868_100_000, None)));
    assert_eq!(
        vec![
            (lora(7, ""), 1),
            (lora(7, "4/5"), 1),
            (None, 2),
            (Some(Modulation { parameters: None }), 1)
        ],
        s.rx_packets_per_modulation
    );
    assert!(same_modulation(&lora(7, "4/5"), &lora(7, "4/5")));
    assert!(!same_modulation(&lora(7, "4/5"), &lora(8, "4/5")));
}

#[test]
fn reset_sequence() {
    let steps = reset_steps(&ResetSetup {
        sx1302_power_en: true,
        sx130x_reset: true,
        sx1261_reset: false,
        ad5338r_reset: true,
        reset_commands: 2,
    });
    assert_eq!(
        vec![
            ResetStep::Activate(ResetPin::Sx1302PowerEn),
            ResetStep::Pause,
            ResetStep::Activate(ResetPin::Sx130xReset),
            ResetStep::Pause,
            ResetStep::Deactivate(ResetPin::Sx130xReset),
            ResetStep::Pause,
            ResetStep::Deactivate(ResetPin::Ad5338rReset),
            ResetStep::Pause,
            ResetStep::Activate(ResetPin::Ad5338rReset),
            ResetStep::Pause,
            ResetStep::RunCommand(0),
            ResetStep::Pause,
            ResetStep::RunCommand(1),
            ResetStep::Pause,
        ],
        steps
    );
    let none = reset_steps(&ResetSetup {
        sx1302_power_en: false,
        sx130x_reset: false,
        sx1261_reset: false,
        ad5338r_reset: false,
        reset_commands: 0,
    });
    assert!(none.is_empty());
}

#[test]
fn gpsd_picks_the_first_ublox() {
    let devices = vec![
        GpsdDevice { path: "/dev/ttyS0".to_string(), driver: None },
        GpsdDevice { path: "/dev/ttyS1".to_string(), driver: Some("NMEA0183".to_string()) },
        GpsdDevice { path: "/dev/ttyACM0".to_string(), driver: Some("u-blox".to_string()) },
        GpsdDevice { path: "/dev/ttyACM1".to_string(), driver: Some("u-blox".to_string()) },
    ];
    assert_eq!(
        Some("&/dev/ttyACM0=b5620601080001200001010000003294\r\n".to_string()),
        ublox_config_command(&devices)
    );
    let mut others = devices;
    others.truncate(2);
    assert_eq!(None, ublox_config_command(&others));
}

#[test]
fn duration_display() {
    let d = DurationDisplay(Duration::from_millis(3_723_456));
    assert_eq!((1, 2, 3, 456), d.parts());
    assert_eq!("01:02:03.456", d.to_string());
    assert_eq!("100:00:00.000", DurationDisplay(Duration::from_secs(360_000)).to_string());
}

#[test]
fn concentrator_count_of_duration() {
    assert_eq!(1_500_000, Duration::from_millis(1500).to_concentrator_count());
    // the counter rolls over every 2^32 µs
    assert_eq!(5, Duration::from_micros((1u64 << 32) + 5).to_concentrator_count());
}

#[test]
fn c_path_fits_63_bytes() {
    assert!(c_path(&"a".repeat(63)).is_some());
    assert!(c_path(&"a".repeat(64)).is_none());
    let a = c_path("é").unwrap();
    assert_eq!([0xc3u8 as i8, 0xa9u8 as i8, 0], [a[0], a[1], a[2]]);
}
