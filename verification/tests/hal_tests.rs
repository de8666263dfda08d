use concentratord::loragw_2g4::hal as hal_2g4;
use concentratord::loragw_2g4::hal_c as c_2g4;
use concentratord::sx1301::timespec::{
    checked_system_time_to_timespec, checked_timespec_to_system_time, duration_to_timespec, system_time_to_timespec, timespec_to_duration,
    timespec_to_system_time, Timespec,
};
use concentratord::sx1302::com::ComType;
use concentratord::sx1302::gps::{GPSFamily, MessageType};
use concentratord::sx1302::hal::{
    BoardConfig, CodeRate, DataRate, LBTChannelConfig, LBTConfig, LBTScanTime, Modulation, RxIfConfig,
    SX1261Config, TxPacket, CRC,
};
use concentratord::sx1302::hal::{tx_gain_lut, TxGainConfig};
use concentratord::sx1302::hal_c;
use concentratord::sx1302::legacy_hal;
use std::time::{Duration, SystemTime};

#[test]
fn sx1302_data_rate_mapping() {
    assert_eq!(hal_c::DR_LORA_SF7, DataRate::SF7.to_hal());
    assert_eq!(50000, DataRate::FSK(50000).to_hal());
    assert_eq!(hal_c::DR_FSK_MAX, DataRate::FSKMax.to_hal());
    assert_eq!(DataRate::SF12, DataRate::from_hal(hal_c::DR_LORA_SF12));
    assert_eq!(DataRate::FSK(50000), DataRate::from_hal(50000));
    assert_eq!(DataRate::Undefined, DataRate::from_hal(hal_c::DR_UNDEFINED));
    assert_eq!(legacy_hal::DataRate::FSK(250000), legacy_hal::unmap_data_rate(250000));
    assert_eq!(hal_c::DR_LORA_SF9, legacy_hal::map_data_rate(legacy_hal::DataRate::SF9));
}

#[test]
fn sx1302_status_and_modulation_mapping() {
    assert_eq!(CRC::CRCOk, CRC::from_hal(hal_c::STAT_CRC_OK as u8));
    assert_eq!(CRC::BadCRC, CRC::from_hal(hal_c::STAT_CRC_BAD as u8));
    assert_eq!(CRC::Undefined, CRC::from_hal(0x7f));
    assert_eq!(Modulation::FSK, Modulation::from_hal(Modulation::FSK.to_hal()));
    assert_eq!(Modulation::Undefined, Modulation::from_hal(0x7f));
    assert_eq!(CodeRate::LoRa4_7, CodeRate::from_hal(CodeRate::LoRa4_7.to_hal()));
    assert_eq!(legacy_hal::CRC::NoCRC, legacy_hal::unmap_status(hal_c::STAT_NO_CRC as u8));
    assert_eq!(250000, legacy_hal::unmap_bandwidth(legacy_hal::map_bandwidth(250000)));
    assert_eq!(hal_c::BW_UNDEFINED as u8, legacy_hal::map_bandwidth(1));
    assert_eq!(hal_c::LGW_COM_USB, ComType::Usb.to_hal());
}

#[test]
fn sx1302_board_config() {
    let conf = BoardConfig {
        lorawan_public: true,
        clock_source: 1,
        full_duplex: false,
        com_type: ComType::Spi,
        com_path: "/dev/spidev0.0".to_string(),
    };
    let c = conf.to_hal().unwrap();
    assert!(c.lorawan_public);
    assert_eq!(1, c.clksrc);
    assert_eq!(hal_c::LGW_COM_SPI, c.com_type);
    let expected: Vec<i8> = "/dev/spidev0.0".bytes().map(|b| b as i8).collect();
    assert_eq!(&expected[..], &c.com_path[..expected.len()]);
    assert!(c.com_path[expected.len()..].iter().all(|b| *b == 0));

    // 63 bytes and the terminating zero fit, 64 do not
    let fits = BoardConfig { com_path: "x".repeat(63), ..conf };
    assert!(fits.to_hal().is_ok());
    let too_long = BoardConfig { com_path: "x".repeat(64), ..fits };
    assert_eq!("com_path max length is 64", too_long.to_hal().err().unwrap());
}

#[test]
fn sx1302_lbt_config() {
    let channel = |freq_hz: u32| LBTChannelConfig {
        freq_hz,
        bandwidth: 125000,
        scan_time: LBTScanTime::Scan5000US,
        transmit_time_ms: 4000,
    };
    let conf = LBTConfig { enable: true, rssi_target: -80, channels: vec![channel(868_100_000), channel(868_300_000)] };
    let c = conf.to_hal().unwrap();
    assert_eq!(2, c.nb_channel);
    assert_eq!(868_300_000, c.channels[1].freq_hz);
    assert_eq!(hal_c::BW_125KHZ as u8, c.channels[0].bandwidth);
    assert_eq!(hal_c::LGW_LBT_SCAN_TIME_5000_US, c.channels[0].scan_time_us);
    assert_eq!(0, c.channels[2].freq_hz);

    let too_many = LBTConfig { enable: true, rssi_target: -80, channels: (0..17).map(channel).collect() };
    assert_eq!("channels exceeds LGW_LBT_CHANNEL_NB_MAX", too_many.to_hal().err().unwrap());

    let sx1261 = SX1261Config { enable: true, spi_path: "/dev/spidev0.1".to_string(), rssi_offset: 0, lbt_config: too_many };
    assert_eq!("channels exceeds LGW_LBT_CHANNEL_NB_MAX", sx1261.to_hal().err().unwrap());
}

#[test]
fn sx1302_tx_packet() {
    let mut pkt = TxPacket::default();
    assert_eq!(0, pkt.size);
    pkt.bandwidth = 500000;
    pkt.datarate = DataRate::SF10;
    pkt.payload[0] = 0xab;
    let p = pkt.to_hal();
    assert_eq!(hal_c::BW_500KHZ as u8, p.bandwidth);
    assert_eq!(hal_c::DR_LORA_SF10, p.datarate);
    assert_eq!(hal_c::IMMEDIATE as u8, p.tx_mode);
    assert_eq!(0xab, p.payload[0]);

    let rx = RxIfConfig::default().to_hal();
    assert_eq!(hal_c::BW_UNDEFINED as u8, rx.bandwidth);
    assert_eq!(hal_c::DR_UNDEFINED, rx.datarate);
}

#[test]
fn sx1302_gps_message_type() {
    assert_eq!(Ok(MessageType::NMEA_RMC), MessageType::from_hal(hal_c::GPS_MSG_NMEA_RMC));
    assert_eq!(Ok(MessageType::UBX_NAV_TIMEGPS), MessageType::from_hal(hal_c::GPS_MSG_UBX_NAV_TIMEGPS));
    assert_eq!(Err("unexpected gps message type: 99".to_string()), MessageType::from_hal(99));
    assert_eq!(GPSFamily::UBX7, GPSFamily::UBX7);
}

#[test]
fn loragw_2g4_mapping() {
    assert_eq!(c_2g4::BW_800KHZ, hal_2g4::bandwidth_to_hal(812000));
    assert_eq!(1625000, hal_2g4::bandwidth_from_hal(c_2g4::BW_1600KHZ));
    assert_eq!(0, hal_2g4::bandwidth_to_hal(800000));
    assert_eq!(hal_2g4::DataRate::SF5, hal_2g4::DataRate::from_hal(999));
    assert_eq!(hal_2g4::CodeRate::LoRaLi4_8, hal_2g4::CodeRate::from_hal(c_2g4::CR_LORA_LI_4_8));
    assert_eq!(hal_2g4::TxStatus::Emitting, hal_2g4::TxStatus::from_hal(c_2g4::TX_EMITTING));
    assert_eq!(hal_2g4::RxStatus::Unknown, hal_2g4::RxStatus::from_hal(999));

    let pkt = hal_2g4::TxPacket::default();
    assert_eq!(0x21, pkt.sync_word);
    let p = hal_2g4::TxPacket { bandwidth: 406000, ..pkt }.to_hal();
    assert_eq!(c_2g4::BW_400KHZ, p.bandwidth);
    assert_eq!(c_2g4::IMMEDIATE, p.tx_mode);

    let board = hal_2g4::BoardConfig { tty_path: "/dev/ttyACM0".to_string() };
    assert_eq!(b'/' as i8, board.to_hal().unwrap().tty_path[0]);
    assert!(hal_2g4::ChannelTxConfig { enable: true }.to_hal().unwrap().enable);
}

#[test]
fn sx1301_timespec() {
    let ts = Timespec { tv_sec: 5, tv_nsec: 7 };
    assert_eq!(Duration::from_secs(5) + Duration::from_nanos(7), timespec_to_duration(&ts));
    // nanoseconds past a second carry over
    let ts = Timespec { tv_sec: 1, tv_nsec: 1_500_000_000 };
    assert_eq!(Duration::from_millis(2500), timespec_to_duration(&ts));
    let t = timespec_to_system_time(&Timespec { tv_sec: 86400, tv_nsec: 0 });
    assert_eq!(Duration::from_secs(86400), t.duration_since(SystemTime::UNIX_EPOCH).unwrap());
}

#[test]
fn sx1302_tx_gain_tables() {
    let gain = |rf_power: i8| TxGainConfig {
        rf_power,
        dig_gain: 0,
        pa_gain: 1,
        dac_gain: 3,
        mix_gain: 10,
        offset_i: 0,
        offset_q: 0,
        pwr_idx: 4,
    };
    let lut = tx_gain_lut(&[gain(12), gain(14)]);
    assert_eq!(2, lut.size);
    assert_eq!(14, lut.lut[1].rf_power);
    assert_eq!(0, lut.lut[2].mix_gain);

    let legacy = legacy_hal::txgain_lut(&[legacy_hal::TxGainConfig {
        rf_power: 27,
        dig_gain: 0,
        pa_gain: 1,
        dac_gain: 3,
        mix_gain: 10,
        offset_i: 0,
        offset_q: 0,
        pwr_idx: 0,
    }]);
    assert_eq!(1, legacy.size);
    assert_eq!(27, legacy.lut[0].rf_power);
}

#[test]
fn sx1302_legacy_configurations() {
    let board = legacy_hal::BoardConfig {
        lorawan_public: false,
        clock_source: 0,
        full_duplex: true,
        spidev_path: "/dev/spidev0.0".to_string(),
    };
    let c = legacy_hal::board_conf(&board).unwrap();
    assert!(c.full_duplex);
    assert_eq!(b'/' as i8, c.spidev_path[0]);
    let too_long = legacy_hal::BoardConfig { spidev_path: "y".repeat(70), ..board };
    assert_eq!("spidev_path max length is 64", legacy_hal::board_conf(&too_long).err().unwrap());

    let rx = legacy_hal::rxif_conf(&legacy_hal::RxIfConfig {
        bandwidth: 250000,
        datarate: legacy_hal::DataRate::SF9,
        ..Default::default()
    });
    assert_eq!(hal_c::BW_250KHZ as u8, rx.bandwidth);
    assert_eq!(hal_c::DR_LORA_SF9, rx.datarate);

    let ts = legacy_hal::timestamp_conf(&legacy_hal::TimestampConfig {
        enable_precision_ts: true,
        max_ts_metrics: 255,
        nb_symbols: 1,
    });
    assert_eq!(255, ts.max_ts_metrics);
}

#[test]
fn sx1301_duration_to_timespec() {
    let ts = duration_to_timespec(&Duration::new(1_700_000_000, 250));
    assert_eq!(1_700_000_000, ts.tv_sec);
    assert_eq!(250, ts.tv_nsec);
    assert_eq!(Duration::new(1_700_000_000, 250), timespec_to_duration(&ts));
}

#[test]
fn sx1301_system_time_timespec_round_trip() {
    let t = checked_timespec_to_system_time(&Timespec { tv_sec: 1_700_000_000, tv_nsec: 250 }).unwrap();
    assert_eq!(Duration::new(1_700_000_000, 250), t.duration_since(SystemTime::UNIX_EPOCH).unwrap());
    let ts = system_time_to_timespec(&t);
    assert_eq!(1_700_000_000, ts.tv_sec);
    assert_eq!(250, ts.tv_nsec);
    // a point in time that no `SystemTime` holds
    assert!(checked_timespec_to_system_time(&Timespec { tv_sec: -1, tv_nsec: 0 }).is_none());
}

#[test]
fn sx1302_unexpected_message_type_text() {
    assert_eq!(
        Err("unexpected gps message type: 4294967295".to_string()),
        MessageType::from_hal(u32::MAX)
    );
}

#[test]
fn sx1301_time_before_the_epoch_has_no_timespec() {
    let before = SystemTime::UNIX_EPOCH - Duration::from_secs(1);
    assert!(checked_system_time_to_timespec(&before).is_none());
    let after = SystemTime::UNIX_EPOCH + Duration::new(5, 7);
    let ts = checked_system_time_to_timespec(&after).unwrap();
    assert_eq!((5, 7), (ts.tv_sec, ts.tv_nsec));
    assert_eq!(after, timespec_to_system_time(&ts));
}
