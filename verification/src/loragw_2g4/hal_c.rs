//! The values and structures of the 2.4 GHz gateway HAL (the C library
//! `libloragw` of the 2.4 GHz reference design), as the bindings hand them over.
use vstd::prelude::*;

verus! {

pub const BW_UNDEFINED: u32 = 0;
pub const BW_200KHZ: u32 = 1;
pub const BW_400KHZ: u32 = 2;
pub const BW_800KHZ: u32 = 3;
pub const BW_1600KHZ: u32 = 4;

pub const DR_UNDEFINED: u32 = 0;
pub const DR_LORA_SF5: u32 = 1;
pub const DR_LORA_SF6: u32 = 2;
pub const DR_LORA_SF7: u32 = 3;
pub const DR_LORA_SF8: u32 = 4;
pub const DR_LORA_SF9: u32 = 5;
pub const DR_LORA_SF10: u32 = 6;
pub const DR_LORA_SF11: u32 = 7;
pub const DR_LORA_SF12: u32 = 8;

pub const CR_UNDEFINED: u32 = 0;
pub const CR_LORA_4_5: u32 = 1;
pub const CR_LORA_4_6: u32 = 2;
pub const CR_LORA_4_7: u32 = 3;
pub const CR_LORA_4_8: u32 = 4;
pub const CR_LORA_LI_4_5: u32 = 5;
pub const CR_LORA_LI_4_6: u32 = 6;
pub const CR_LORA_LI_4_8: u32 = 7;

pub const MOD_UNDEFINED: u32 = 0;
pub const MOD_LORA: u32 = 1;

pub const STAT_UNDEFINED: u32 = 0;
pub const STAT_NO_CRC: u32 = 1;
pub const STAT_CRC_BAD: u32 = 2;
pub const STAT_CRC_OK: u32 = 3;

pub const TIMESTAMPED: u32 = 0;
pub const IMMEDIATE: u32 = 1;
pub const ON_GPS: u32 = 2;
pub const CW_ON: u32 = 3;
pub const CW_OFF: u32 = 4;

pub const TX_STATUS: u32 = 0;
pub const RX_STATUS: u32 = 1;

pub const TX_STATUS_UNKNOWN: u32 = 0;
pub const TX_OFF: u32 = 1;
pub const TX_FREE: u32 = 2;
pub const TX_SCHEDULED: u32 = 3;
pub const TX_EMITTING: u32 = 4;
pub const RX_STATUS_UNKNOWN: u32 = 5;
pub const RX_OFF: u32 = 6;
pub const RX_ON: u32 = 7;
pub const RX_SUSPENDED: u32 = 8;

pub const TEMP_SRC_EXT: u32 = 0;
pub const TEMP_SRC_MCU: u32 = 1;

/// The board configuration (`struct lgw_conf_board_s`).
pub struct LgwConfBoard {
    pub tty_path: [i8; 64],
}

/// The TX configuration (`struct lgw_conf_channel_tx_s`).
pub struct LgwConfChannelTx {
    pub enable: bool,
}

/// A packet to send (`struct lgw_pkt_tx_s`).
#[derive(Clone, Copy)]
pub struct LgwPktTx {
    pub freq_hz: u32,
    pub tx_mode: u32,
    pub count_us: u32,
    pub rf_power: i8,
    pub bandwidth: u32,
    pub datarate: u32,
    pub coderate: u32,
    pub invert_pol: bool,
    pub preamble: u16,
    pub sync_word: u8,
    pub no_crc: bool,
    pub no_header: bool,
    pub size: u16,
    pub payload: [u8; 256],
}

} // verus!
