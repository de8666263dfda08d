//! The values and structures of the SX1302 concentrator HAL (the C library
//! `libloragw`), as the bindings hand them over.
use vstd::prelude::*;

verus! {

pub const MOD_UNDEFINED: u32 = 0;
pub const MOD_LORA: u32 = 0x10;
pub const MOD_FSK: u32 = 0x20;

pub const BW_UNDEFINED: u32 = 0;
pub const BW_125KHZ: u32 = 0x04;
pub const BW_250KHZ: u32 = 0x05;
pub const BW_500KHZ: u32 = 0x06;

pub const DR_UNDEFINED: u32 = 0;
pub const DR_LORA_SF5: u32 = 5;
pub const DR_LORA_SF6: u32 = 6;
pub const DR_LORA_SF7: u32 = 7;
pub const DR_LORA_SF8: u32 = 8;
pub const DR_LORA_SF9: u32 = 9;
pub const DR_LORA_SF10: u32 = 10;
pub const DR_LORA_SF11: u32 = 11;
pub const DR_LORA_SF12: u32 = 12;
pub const DR_FSK_MIN: u32 = 500;
pub const DR_FSK_MAX: u32 = 250000;

pub const CR_UNDEFINED: u32 = 0;
pub const CR_LORA_4_5: u32 = 0x01;
pub const CR_LORA_4_6: u32 = 0x02;
pub const CR_LORA_4_7: u32 = 0x03;
pub const CR_LORA_4_8: u32 = 0x04;

pub const STAT_UNDEFINED: u32 = 0x00;
pub const STAT_NO_CRC: u32 = 0x01;
pub const STAT_CRC_BAD: u32 = 0x11;
pub const STAT_CRC_OK: u32 = 0x10;

pub const IMMEDIATE: u32 = 0;
pub const TIMESTAMPED: u32 = 1;
pub const ON_GPS: u32 = 2;

pub const TX_STATUS: u32 = 1;
pub const RX_STATUS: u32 = 2;

pub const TX_STATUS_UNKNOWN: u32 = 0;
pub const TX_OFF: u32 = 1;
pub const TX_FREE: u32 = 2;
pub const TX_SCHEDULED: u32 = 3;
pub const TX_EMITTING: u32 = 4;

pub const RX_STATUS_UNKNOWN: u32 = 0;
pub const RX_OFF: u32 = 1;
pub const RX_ON: u32 = 2;
pub const RX_SUSPENDED: u32 = 3;

pub const LGW_RADIO_TYPE_NONE: u32 = 0;
pub const LGW_RADIO_TYPE_SX1255: u32 = 1;
pub const LGW_RADIO_TYPE_SX1257: u32 = 2;
pub const LGW_RADIO_TYPE_SX1272: u32 = 3;
pub const LGW_RADIO_TYPE_SX1276: u32 = 4;
pub const LGW_RADIO_TYPE_SX1250: u32 = 5;

pub const LGW_FTIME_MODE_HIGH_CAPACITY: u32 = 0;
pub const LGW_FTIME_MODE_ALL_SF: u32 = 1;

pub const LGW_LBT_SCAN_TIME_128_US: u32 = 128;
pub const LGW_LBT_SCAN_TIME_5000_US: u32 = 5000;

pub const LGW_COM_SPI: u32 = 0;
pub const LGW_COM_USB: u32 = 1;
pub const LGW_COM_UNKNOWN: u32 = 2;

/// The number of listen-before-talk channels the HAL takes at most.
pub const LGW_LBT_CHANNEL_NB_MAX: usize = 16;

pub const GPS_MSG_UNKNOWN: u32 = 0;
pub const GPS_MSG_IGNORED: u32 = 1;
pub const GPS_MSG_INVALID: u32 = 2;
pub const GPS_MSG_INCOMPLETE: u32 = 3;
pub const GPS_MSG_NMEA_RMC: u32 = 4;
pub const GPS_MSG_NMEA_GGA: u32 = 5;
pub const GPS_MSG_NMEA_GNS: u32 = 6;
pub const GPS_MSG_NMEA_ZDA: u32 = 7;
pub const GPS_MSG_NMEA_GBS: u32 = 8;
pub const GPS_MSG_NMEA_GST: u32 = 9;
pub const GPS_MSG_NMEA_GSA: u32 = 10;
pub const GPS_MSG_NMEA_GSV: u32 = 11;
pub const GPS_MSG_NMEA_GLL: u32 = 12;
pub const GPS_MSG_NMEA_TXT: u32 = 13;
pub const GPS_MSG_NMEA_VTG: u32 = 14;
pub const GPS_MSG_UBX_NAV_TIMEGPS: u32 = 15;
pub const GPS_MSG_UBX_NAV_TIMEUTC: u32 = 16;

/// The board configuration (`struct lgw_conf_board_s`).
pub struct LgwConfBoard {
    pub lorawan_public: bool,
    pub clksrc: u8,
    pub full_duplex: bool,
    pub com_type: u32,
    pub com_path: [i8; 64],
}

/// The configuration of an IF chain (`struct lgw_conf_rxif_s`).
pub struct LgwConfRxif {
    pub enable: bool,
    pub rf_chain: u8,
    pub freq_hz: i32,
    pub bandwidth: u8,
    pub datarate: u32,
    pub sync_word_size: u8,
    pub sync_word: u64,
    pub implicit_hdr: bool,
    pub implicit_payload_length: u8,
    pub implicit_crc_en: bool,
    pub implicit_coderate: u8,
}

/// One entry of the TX gain table (`struct lgw_tx_gain_s`).
#[derive(Clone, Copy)]
pub struct LgwTxGain {
    pub rf_power: i8,
    pub dig_gain: u8,
    pub pa_gain: u8,
    pub dac_gain: u8,
    pub mix_gain: u8,
    pub offset_i: i8,
    pub offset_q: i8,
    pub pwr_idx: u8,
}

/// A packet to send (`struct lgw_pkt_tx_s`).
#[derive(Clone, Copy)]
pub struct LgwPktTx {
    pub freq_hz: u32,
    pub tx_mode: u8,
    pub count_us: u32,
    pub rf_chain: u8,
    pub rf_power: i8,
    pub modulation: u8,
    pub freq_offset: i8,
    pub bandwidth: u8,
    pub datarate: u32,
    pub coderate: u8,
    pub invert_pol: bool,
    pub f_dev: u8,
    pub preamble: u16,
    pub no_crc: bool,
    pub no_header: bool,
    pub size: u16,
    pub payload: [u8; 256],
}

/// The TX gain table of an RF chain (`struct lgw_tx_gain_lut_s`).
pub struct LgwTxGainLut {
    pub lut: [LgwTxGain; 16],
    pub size: u8,
}

/// The board configuration of the earlier HAL, with an SPI device path
/// (`struct lgw_conf_board_s`).
pub struct LgwConfBoardSpidev {
    pub lorawan_public: bool,
    pub clksrc: u8,
    pub full_duplex: bool,
    pub spidev_path: [i8; 64],
}

/// The precision timestamp configuration of the earlier HAL
/// (`struct lgw_conf_timestamp_s`).
pub struct LgwConfTimestamp {
    pub enable_precision_ts: bool,
    pub max_ts_metrics: u8,
    pub nb_symbols: u8,
}

/// The fine timestamp configuration (`struct lgw_conf_ftime_s`).
pub struct LgwConfFtime {
    pub enable: bool,
    pub mode: u32,
}

/// A listen-before-talk channel (`struct lgw_conf_chan_lbt_s`).
#[derive(Clone, Copy)]
pub struct LgwConfChanLbt {
    pub freq_hz: u32,
    pub bandwidth: u8,
    pub scan_time_us: u32,
    pub transmit_time_ms: u16,
}

/// The listen-before-talk configuration (`struct lgw_conf_lbt_s`).
pub struct LgwConfLbt {
    pub enable: bool,
    pub rssi_target: i8,
    pub nb_channel: u8,
    pub channels: [LgwConfChanLbt; 16],
}

/// The configuration of the SX1261 radio (`struct lgw_conf_sx1261_s`).
pub struct LgwConfSx1261 {
    pub enable: bool,
    pub spi_path: [i8; 64],
    pub rssi_offset: i8,
    pub lbt_conf: LgwConfLbt,
}

} // verus!
