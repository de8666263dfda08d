//! The Rust side of the SX1302 concentrator HAL: the types of its configuration and
//! packets, and how they map to the values and structures of the C library.
use vstd::prelude::*;
use vstd::utf8::encode_utf8;

use super::com::ComType;
use super::hal_c::{
    MOD_UNDEFINED, MOD_LORA, MOD_FSK, BW_UNDEFINED, BW_125KHZ, BW_250KHZ, BW_500KHZ,
    DR_UNDEFINED, DR_LORA_SF5, DR_LORA_SF6, DR_LORA_SF7, DR_LORA_SF8, DR_LORA_SF9, DR_LORA_SF10,
    DR_LORA_SF11, DR_LORA_SF12, DR_FSK_MIN, DR_FSK_MAX, CR_UNDEFINED, CR_LORA_4_5, CR_LORA_4_6,
    CR_LORA_4_7, CR_LORA_4_8, STAT_NO_CRC, STAT_CRC_BAD, STAT_CRC_OK, IMMEDIATE, TIMESTAMPED,
    ON_GPS, TX_STATUS, RX_STATUS, TX_OFF, TX_FREE, TX_SCHEDULED, TX_EMITTING, RX_OFF, RX_ON,
    RX_SUSPENDED, LGW_RADIO_TYPE_NONE, LGW_RADIO_TYPE_SX1255, LGW_RADIO_TYPE_SX1257,
    LGW_RADIO_TYPE_SX1272, LGW_RADIO_TYPE_SX1276, LGW_RADIO_TYPE_SX1250,
    LGW_FTIME_MODE_HIGH_CAPACITY, LGW_FTIME_MODE_ALL_SF, LGW_LBT_SCAN_TIME_128_US,
    LGW_LBT_SCAN_TIME_5000_US, LGW_LBT_CHANNEL_NB_MAX, LgwConfBoard, LgwConfRxif, LgwTxGain,
    LgwPktTx, LgwConfFtime, LgwConfChanLbt, LgwConfLbt, LgwConfSx1261, LgwTxGainLut,
};
use crate::c_string::{c_path, c_path_array};

verus! {

/// The HAL value of a bandwidth in Hz (undefined for a bandwidth the HAL lacks).
pub open spec fn spec_bandwidth_to_hal(bandwidth: u32) -> u8 {
    (if bandwidth == 500000 {
        BW_500KHZ
    } else if bandwidth == 250000 {
        BW_250KHZ
    } else if bandwidth == 125000 {
        BW_125KHZ
    } else {
        BW_UNDEFINED
    }) as u8
}

/// The bandwidth in Hz of a HAL value (0 for a value that names none).
pub open spec fn spec_bandwidth_from_hal(bandwidth: u8) -> u32 {
    if bandwidth as u32 == BW_500KHZ {
        500000
    } else if bandwidth as u32 == BW_250KHZ {
        250000
    } else if bandwidth as u32 == BW_125KHZ {
        125000
    } else {
        0
    }
}

pub fn bandwidth_to_hal(bandwidth: u32) -> (r: u8)
    ensures
        r == spec_bandwidth_to_hal(bandwidth),
{
    (match bandwidth {
        500000 => BW_500KHZ,
        250000 => BW_250KHZ,
        125000 => BW_125KHZ,
        _ => BW_UNDEFINED,
    }) as u8
}

pub fn bandwidth_from_hal(bandwidth: u8) -> (r: u32)
    ensures
        r == spec_bandwidth_from_hal(bandwidth),
{
    let b = bandwidth as u32;
    if b == BW_500KHZ {
        500000
    } else if b == BW_250KHZ {
        250000
    } else if b == BW_125KHZ {
        125000
    } else {
        0
    }
}

#[derive(Debug, Copy, Clone)]
pub enum RadioType {
    NONE,
    SX1255,
    SX1257,
    SX1272,
    SX1276,
    SX1250,
}

impl RadioType {
    pub open spec fn spec_to_hal(&self) -> u32 {
        match self {
            RadioType::NONE => LGW_RADIO_TYPE_NONE,
            RadioType::SX1255 => LGW_RADIO_TYPE_SX1255,
            RadioType::SX1257 => LGW_RADIO_TYPE_SX1257,
            RadioType::SX1272 => LGW_RADIO_TYPE_SX1272,
            RadioType::SX1276 => LGW_RADIO_TYPE_SX1276,
            RadioType::SX1250 => LGW_RADIO_TYPE_SX1250,
        }
    }

    pub fn to_hal(&self) -> (r: u32)
        ensures
            r == self.spec_to_hal(),
    {
        match self {
            RadioType::NONE => LGW_RADIO_TYPE_NONE,
            RadioType::SX1255 => LGW_RADIO_TYPE_SX1255,
            RadioType::SX1257 => LGW_RADIO_TYPE_SX1257,
            RadioType::SX1272 => LGW_RADIO_TYPE_SX1272,
            RadioType::SX1276 => LGW_RADIO_TYPE_SX1276,
            RadioType::SX1250 => LGW_RADIO_TYPE_SX1250,
        }
    }
}

#[derive(Debug, Copy, Clone, PartialEq, Eq, Structural)]
pub enum CRC {
    Undefined,
    NoCRC,
    BadCRC,
    CRCOk,
}

impl CRC {
    pub open spec fn spec_from_hal(status: u8) -> CRC {
        if status as u32 == STAT_NO_CRC {
            CRC::NoCRC
        } else if status as u32 == STAT_CRC_BAD {
            CRC::BadCRC
        } else if status as u32 == STAT_CRC_OK {
            CRC::CRCOk
        } else {
            CRC::Undefined
        }
    }

    pub fn from_hal(status: u8) -> (r: Self)
        ensures
            r == Self::spec_from_hal(status),
    {
        let s = status as u32;
        if s == STAT_NO_CRC {
            CRC::NoCRC
        } else if s == STAT_CRC_BAD {
            CRC::BadCRC
        } else if s == STAT_CRC_OK {
            CRC::CRCOk
        } else {
            CRC::Undefined
        }
    }
}

#[derive(Debug, Copy, Clone, PartialEq, Eq, Structural)]
pub enum Modulation {
    Undefined,
    LoRa,
    FSK,
}

impl Modulation {
    pub open spec fn spec_to_hal(&self) -> u8 {
        (match self {
            Modulation::Undefined => MOD_UNDEFINED,
            Modulation::LoRa => MOD_LORA,
            Modulation::FSK => MOD_FSK,
        }) as u8
    }

    pub open spec fn spec_from_hal(modulation: u8) -> Modulation {
        if modulation as u32 == MOD_LORA {
            Modulation::LoRa
        } else if modulation as u32 == MOD_FSK {
            Modulation::FSK
        } else {
            Modulation::Undefined
        }
    }

    pub fn to_hal(&self) -> (r: u8)
        ensures
            r == self.spec_to_hal(),
    {
        (match self {
            Modulation::Undefined => MOD_UNDEFINED,
            Modulation::LoRa => MOD_LORA,
            Modulation::FSK => MOD_FSK,
        }) as u8
    }

    pub fn from_hal(modulation: u8) -> (r: Self)
        ensures
            r == Self::spec_from_hal(modulation),
    {
        let m = modulation as u32;
        if m == MOD_LORA {
            Modulation::LoRa
        } else if m == MOD_FSK {
            Modulation::FSK
        } else {
            Modulation::Undefined
        }
    }
}

#[derive(Debug, Copy, Clone, PartialEq, Eq, Structural)]
pub enum DataRate {
    Undefined,
    SF5,
    SF6,
    SF7,
    SF8,
    SF9,
    SF10,
    SF11,
    SF12,
    FSK(u32),
    FSKMin,
    FSKMax,
}

impl DataRate {
    pub open spec fn spec_to_hal(&self) -> u32 {
        match self {
            DataRate::Undefined => DR_UNDEFINED,
            DataRate::SF5 => DR_LORA_SF5,
            DataRate::SF6 => DR_LORA_SF6,
            DataRate::SF7 => DR_LORA_SF7,
            DataRate::SF8 => DR_LORA_SF8,
            DataRate::SF9 => DR_LORA_SF9,
            DataRate::SF10 => DR_LORA_SF10,
            DataRate::SF11 => DR_LORA_SF11,
            DataRate::SF12 => DR_LORA_SF12,
            DataRate::FSK(v) => *v,
            DataRate::FSKMin => DR_FSK_MIN,
            DataRate::FSKMax => DR_FSK_MAX,
        }
    }

    /// The data rate of a HAL value: a LoRa spreading factor, or else an FSK bit rate.
    pub open spec fn spec_from_hal(datarate: u32) -> DataRate {
        if datarate == DR_UNDEFINED {
            DataRate::Undefined
        } else if datarate == DR_LORA_SF5 {
            DataRate::SF5
        } else if datarate == DR_LORA_SF6 {
            DataRate::SF6
        } else if datarate == DR_LORA_SF7 {
            DataRate::SF7
        } else if datarate == DR_LORA_SF8 {
            DataRate::SF8
        } else if datarate == DR_LORA_SF9 {
            DataRate::SF9
        } else if datarate == DR_LORA_SF10 {
            DataRate::SF10
        } else if datarate == DR_LORA_SF11 {
            DataRate::SF11
        } else if datarate == DR_LORA_SF12 {
            DataRate::SF12
        } else {
            DataRate::FSK(datarate)
        }
    }

    pub fn to_hal(&self) -> (r: u32)
        ensures
            r == self.spec_to_hal(),
    {
        match self {
            DataRate::Undefined => DR_UNDEFINED,
            DataRate::SF5 => DR_LORA_SF5,
            DataRate::SF6 => DR_LORA_SF6,
            DataRate::SF7 => DR_LORA_SF7,
            DataRate::SF8 => DR_LORA_SF8,
            DataRate::SF9 => DR_LORA_SF9,
            DataRate::SF10 => DR_LORA_SF10,
            DataRate::SF11 => DR_LORA_SF11,
            DataRate::SF12 => DR_LORA_SF12,
            DataRate::FSK(v) => *v,
            DataRate::FSKMin => DR_FSK_MIN,
            DataRate::FSKMax => DR_FSK_MAX,
        }
    }

    pub fn from_hal(datarate: u32) -> (r: Self)
        ensures
            r == Self::spec_from_hal(datarate),
    {
        if datarate == DR_UNDEFINED {
            DataRate::Undefined
        } else if datarate == DR_LORA_SF5 {
            DataRate::SF5
        } else if datarate == DR_LORA_SF6 {
            DataRate::SF6
        } else if datarate == DR_LORA_SF7 {
            DataRate::SF7
        } else if datarate == DR_LORA_SF8 {
            DataRate::SF8
        } else if datarate == DR_LORA_SF9 {
            DataRate::SF9
        } else if datarate == DR_LORA_SF10 {
            DataRate::SF10
        } else if datarate == DR_LORA_SF11 {
            DataRate::SF11
        } else if datarate == DR_LORA_SF12 {
            DataRate::SF12
        } else {
            DataRate::FSK(datarate)
        }
    }
}

#[derive(Debug, Copy, Clone, PartialEq, Eq, Structural)]
pub enum CodeRate {
    Undefined,
    LoRa4_5,
    LoRa4_6,
    LoRa4_7,
    LoRa4_8,
}

impl CodeRate {
    pub open spec fn spec_to_hal(&self) -> u8 {
        (match self {
            CodeRate::Undefined => CR_UNDEFINED,
            CodeRate::LoRa4_5 => CR_LORA_4_5,
            CodeRate::LoRa4_6 => CR_LORA_4_6,
            CodeRate::LoRa4_7 => CR_LORA_4_7,
            CodeRate::LoRa4_8 => CR_LORA_4_8,
        }) as u8
    }

    pub open spec fn spec_from_hal(coderate: u8) -> CodeRate {
        if coderate as u32 == CR_LORA_4_5 {
            CodeRate::LoRa4_5
        } else if coderate as u32 == CR_LORA_4_6 {
            CodeRate::LoRa4_6
        } else if coderate as u32 == CR_LORA_4_7 {
            CodeRate::LoRa4_7
        } else if coderate as u32 == CR_LORA_4_8 {
            CodeRate::LoRa4_8
        } else {
            CodeRate::Undefined
        }
    }

    pub fn to_hal(&self) -> (r: u8)
        ensures
            r == self.spec_to_hal(),
    {
        (match self {
            CodeRate::Undefined => CR_UNDEFINED,
            CodeRate::LoRa4_5 => CR_LORA_4_5,
            CodeRate::LoRa4_6 => CR_LORA_4_6,
            CodeRate::LoRa4_7 => CR_LORA_4_7,
            CodeRate::LoRa4_8 => CR_LORA_4_8,
        }) as u8
    }

    pub fn from_hal(coderate: u8) -> (r: Self)
        ensures
            r == Self::spec_from_hal(coderate),
    {
        let c = coderate as u32;
        if c == CR_LORA_4_5 {
            CodeRate::LoRa4_5
        } else if c == CR_LORA_4_6 {
            CodeRate::LoRa4_6
        } else if c == CR_LORA_4_7 {
            CodeRate::LoRa4_7
        } else if c == CR_LORA_4_8 {
            CodeRate::LoRa4_8
        } else {
            CodeRate::Undefined
        }
    }
}

#[derive(Debug, Copy, Clone, PartialEq, Eq, Structural)]
pub enum TxMode {
    Immediate,
    Timestamped,
    OnGPS,
}

impl TxMode {
    pub open spec fn spec_to_hal(&self) -> u8 {
        (match self {
            TxMode::Immediate => IMMEDIATE,
            TxMode::Timestamped => TIMESTAMPED,
            TxMode::OnGPS => ON_GPS,
        }) as u8
    }

    pub fn to_hal(&self) -> (r: u8)
        ensures
            r == self.spec_to_hal(),
    {
        (match self {
            TxMode::Immediate => IMMEDIATE,
            TxMode::Timestamped => TIMESTAMPED,
            TxMode::OnGPS => ON_GPS,
        }) as u8
    }
}

/// Each transmission mode goes to the HAL as the constant of its name.
pub proof fn lemma_tx_mode_constants()
    ensures
        TxMode::Immediate.spec_to_hal() == IMMEDIATE as u8,
        TxMode::Timestamped.spec_to_hal() == TIMESTAMPED as u8,
        TxMode::OnGPS.spec_to_hal() == ON_GPS as u8,
{
}

#[derive(PartialEq, Eq, Structural)]
pub enum StatusSelect {
    Tx,
    Rx,
}

impl StatusSelect {
    pub open spec fn spec_to_hal(&self) -> u8 {
        (match self {
            StatusSelect::Tx => TX_STATUS,
            StatusSelect::Rx => RX_STATUS,
        }) as u8
    }

    pub fn to_hal(&self) -> (r: u8)
        ensures
            r == self.spec_to_hal(),
    {
        (match self {
            StatusSelect::Tx => TX_STATUS,
            StatusSelect::Rx => RX_STATUS,
        }) as u8
    }
}

pub enum StatusReturn {
    Tx(TxStatus),
    Rx(RxStatus),
}

#[derive(Debug, PartialEq, Eq, Structural)]
pub enum TxStatus {
    Unknown,
    Off,
    Free,
    Scheduled,
    Emitting,
}

impl TxStatus {
    pub open spec fn spec_from_hal(code: u8) -> TxStatus {
        if code as u32 == TX_OFF {
            TxStatus::Off
        } else if code as u32 == TX_FREE {
            TxStatus::Free
        } else if code as u32 == TX_SCHEDULED {
            TxStatus::Scheduled
        } else if code as u32 == TX_EMITTING {
            TxStatus::Emitting
        } else {
            TxStatus::Unknown
        }
    }

    pub fn from_hal(code: u8) -> (r: Self)
        ensures
            r == Self::spec_from_hal(code),
    {
        let c = code as u32;
        if c == TX_OFF {
            TxStatus::Off
        } else if c == TX_FREE {
            TxStatus::Free
        } else if c == TX_SCHEDULED {
            TxStatus::Scheduled
        } else if c == TX_EMITTING {
            TxStatus::Emitting
        } else {
            TxStatus::Unknown
        }
    }
}

#[derive(Debug, PartialEq, Eq, Structural)]
pub enum RxStatus {
    Unknown,
    Off,
    On,
    Suspended,
}

impl RxStatus {
    pub open spec fn spec_from_hal(code: u8) -> RxStatus {
        if code as u32 == RX_OFF {
            RxStatus::Off
        } else if code as u32 == RX_ON {
            RxStatus::On
        } else if code as u32 == RX_SUSPENDED {
            RxStatus::Suspended
        } else {
            RxStatus::Unknown
        }
    }

    pub fn from_hal(code: u8) -> (r: Self)
        ensures
            r == Self::spec_from_hal(code),
    {
        let c = code as u32;
        if c == RX_OFF {
            RxStatus::Off
        } else if c == RX_ON {
            RxStatus::On
        } else if c == RX_SUSPENDED {
            RxStatus::Suspended
        } else {
            RxStatus::Unknown
        }
    }
}

#[derive(Debug)]
pub enum FineTimestampMode {
    /// Fine timestamps for SF5 -> SF10.
    HighCapacity,
    /// Fine timestamps for SF5 -> SF12.
    AllSF,
}

impl FineTimestampMode {
    pub open spec fn spec_to_hal(&self) -> u32 {
        match self {
            FineTimestampMode::HighCapacity => LGW_FTIME_MODE_HIGH_CAPACITY,
            FineTimestampMode::AllSF => LGW_FTIME_MODE_ALL_SF,
        }
    }

    pub fn to_hal(&self) -> (r: u32)
        ensures
            r == self.spec_to_hal(),
    {
        match self {
            FineTimestampMode::HighCapacity => LGW_FTIME_MODE_HIGH_CAPACITY,
            FineTimestampMode::AllSF => LGW_FTIME_MODE_ALL_SF,
        }
    }
}

#[derive(Debug)]
pub enum LBTScanTime {
    /// 128 us
    Scan128US,
    /// 5000 us
    Scan5000US,
}

impl LBTScanTime {
    pub open spec fn spec_to_hal(&self) -> u32 {
        match self {
            LBTScanTime::Scan128US => LGW_LBT_SCAN_TIME_128_US,
            LBTScanTime::Scan5000US => LGW_LBT_SCAN_TIME_5000_US,
        }
    }

    pub fn to_hal(&self) -> (r: u32)
        ensures
            r == self.spec_to_hal(),
    {
        match self {
            LBTScanTime::Scan128US => LGW_LBT_SCAN_TIME_128_US,
            LBTScanTime::Scan5000US => LGW_LBT_SCAN_TIME_5000_US,
        }
    }
}

/// Every data rate value of the HAL maps back to itself: a LoRa spreading factor
/// through its variant, any other value through an FSK bit rate.
pub proof fn lemma_data_rate_value_round_trip(datarate: u32)
    ensures
        DataRate::spec_from_hal(datarate).spec_to_hal() == datarate,
{
}

/// The LoRa data rates, and FSK bit rates that are not values of a LoRa spreading
/// factor, come back from the HAL as themselves.
pub proof fn lemma_data_rate_round_trip(d: DataRate)
    requires
        d matches DataRate::FSK(v) ==> v != DR_UNDEFINED && !(DR_LORA_SF5 <= v <= DR_LORA_SF12),
        d != DataRate::FSKMin && d != DataRate::FSKMax,
    ensures
        DataRate::spec_from_hal(d.spec_to_hal()) == d,
{
}

/// Coding rates and modulations come back from the HAL as themselves.
pub proof fn lemma_code_rate_and_modulation_round_trip(c: CodeRate, m: Modulation)
    ensures
        CodeRate::spec_from_hal(c.spec_to_hal()) == c,
        Modulation::spec_from_hal(m.spec_to_hal()) == m,
{
}

/// The bandwidths the HAL names come back from it as themselves.
pub proof fn lemma_bandwidth_round_trip(bandwidth: u32)
    requires
        bandwidth == 125000 || bandwidth == 250000 || bandwidth == 500000,
    ensures
        spec_bandwidth_from_hal(spec_bandwidth_to_hal(bandwidth)) == bandwidth,
{
}

/// Configuration structure for board specificities.
pub struct BoardConfig {
    /// Enable ONLY for *public* networks using the LoRa MAC protocol.
    pub lorawan_public: bool,
    /// Index of RF chain which provides clock to concentrator.
    pub clock_source: u8,
    /// Indicates if the gateway operates in full duplex mode or not.
    pub full_duplex: bool,
    /// The Communication interface (SPI/USB) to connect to the SX1302.
    pub com_type: ComType,
    /// Path to access the COM device to connect to the SX1302.
    pub com_path: String,
}

impl BoardConfig {
    pub fn to_hal(&self) -> (r: Result<LgwConfBoard, String>)
        requires
            !encode_utf8(self.com_path@).contains(0u8),
        ensures
            encode_utf8(self.com_path@).len() + 1 > 64 ==> (r matches Err(e) && e@
                == "com_path max length is 64"@),
            encode_utf8(self.com_path@).len() + 1 <= 64 ==> (r matches Ok(c) && {
                &&& c.lorawan_public == self.lorawan_public
                &&& c.clksrc == self.clock_source
                &&& c.full_duplex == self.full_duplex
                &&& c.com_type == self.com_type.spec_to_hal()
                &&& c_path_array(encode_utf8(self.com_path@), c.com_path)
            }),
    {
        let com_path = match c_path(self.com_path.as_str()) {
            Some(v) => v,
            None => {
                return Err("com_path max length is 64".to_string());
            },
        };

        Ok(LgwConfBoard {
            lorawan_public: self.lorawan_public,
            clksrc: self.clock_source,
            full_duplex: self.full_duplex,
            com_type: self.com_type.to_hal(),
            com_path,
        })
    }
}

/// Configuration structure for an IF chain.
pub struct RxIfConfig {
    /// Enable or disable that IF chain.
    pub enable: bool,
    /// To which RF chain is that IF chain associated.
    pub rf_chain: u8,
    /// Center frequ of the IF chain, relative to RF chain frequency.
    pub freq_hz: i32,
    /// RX bandwidth, 0 for default.
    pub bandwidth: u32,
    /// RX datarate, 0 for default.
    pub datarate: DataRate,
    /// size of FSK sync word (number of bytes, 0 for default).
    pub sync_word_size: u8,
    /// FSK sync word (ALIGN RIGHT, eg. 0xC194C1).
    pub sync_word: u64,
    /// LoRa Service implicit header.
    pub implicit_header: bool,
    /// LoRa Service implicit header payload length (number of bytes, 0 for default).
    pub implicit_payload_length: u8,
    /// LoRa Service implicit header CRC enable.
    pub implicit_crc_enable: bool,
    /// LoRa Service implicit header coding rate.
    pub implicit_coderate: CodeRate,
}

impl RxIfConfig {
    pub fn to_hal(&self) -> (c: LgwConfRxif)
        ensures
            c.enable == self.enable,
            c.rf_chain == self.rf_chain,
            c.freq_hz == self.freq_hz,
            c.bandwidth == spec_bandwidth_to_hal(self.bandwidth),
            c.datarate == self.datarate.spec_to_hal(),
            c.sync_word_size == self.sync_word_size,
            c.sync_word == self.sync_word,
            c.implicit_hdr == self.implicit_header,
            c.implicit_payload_length == self.implicit_payload_length,
            c.implicit_crc_en == self.implicit_crc_enable,
            c.implicit_coderate == self.implicit_coderate.spec_to_hal(),
    {
        LgwConfRxif {
            enable: self.enable,
            rf_chain: self.rf_chain,
            freq_hz: self.freq_hz,
            bandwidth: bandwidth_to_hal(self.bandwidth),
            datarate: self.datarate.to_hal(),
            sync_word_size: self.sync_word_size,
            sync_word: self.sync_word,
            implicit_hdr: self.implicit_header,
            implicit_payload_length: self.implicit_payload_length,
            implicit_crc_en: self.implicit_crc_enable,
            implicit_coderate: self.implicit_coderate.to_hal(),
        }
    }
}

impl Default for RxIfConfig {
    fn default() -> (c: Self)
        ensures
            !c.enable,
            c.rf_chain == 0,
            c.freq_hz == 0,
            c.bandwidth == 0,
            c.datarate == DataRate::Undefined,
            c.sync_word_size == 0,
            c.sync_word == 0,
            !c.implicit_header,
            c.implicit_payload_length == 0,
            !c.implicit_crc_enable,
            c.implicit_coderate == CodeRate::Undefined,
    {
        RxIfConfig {
            enable: false,
            rf_chain: 0,
            freq_hz: 0,
            bandwidth: 0,
            datarate: DataRate::Undefined,
            sync_word_size: 0,
            sync_word: 0,
            implicit_header: false,
            implicit_payload_length: 0,
            implicit_crc_enable: false,
            implicit_coderate: CodeRate::Undefined,
        }
    }
}

/// Structure containing all gains of Tx chain.
#[derive(Clone, Copy)]
pub struct TxGainConfig {
    /// Measured TX power at the board connector, in dBm.
    pub rf_power: i8,
    /// (sx125x) 2 bits: control of the digital gain of SX1302.
    pub dig_gain: u8,
    /// (sx125x) 2 bits: control of the external PA (SX1302 I/O).
    /// (sx1250) 1 bits: enable/disable the external PA (SX1302 I/O).
    pub pa_gain: u8,
    /// (sx125x) 2 bits: control of the radio DAC.
    pub dac_gain: u8,
    /// 4 bits: control of the radio mixer.
    pub mix_gain: u8,
    /// (sx125x) calibrated I offset.
    pub offset_i: i8,
    /// (sx125x) calibrated Q offset.
    pub offset_q: i8,
    /// (sx1250) 6 bits: control the radio power index to be used for configuration.
    pub pwr_idx: u8,
}

impl TxGainConfig {
    /// The HAL entry for this gain: the same values.
    pub open spec fn spec_to_hal(&self) -> LgwTxGain {
        LgwTxGain {
            rf_power: self.rf_power,
            dig_gain: self.dig_gain,
            pa_gain: self.pa_gain,
            dac_gain: self.dac_gain,
            mix_gain: self.mix_gain,
            offset_i: self.offset_i,
            offset_q: self.offset_q,
            pwr_idx: self.pwr_idx,
        }
    }

    pub fn to_hal(&self) -> (g: LgwTxGain)
        ensures
            g == self.spec_to_hal(),
    {
        LgwTxGain {
            rf_power: self.rf_power,
            dig_gain: self.dig_gain,
            pa_gain: self.pa_gain,
            dac_gain: self.dac_gain,
            mix_gain: self.mix_gain,
            offset_i: self.offset_i,
            offset_q: self.offset_q,
            pwr_idx: self.pwr_idx,
        }
    }
}

/// An unused entry of the TX gain table: all zeros.
pub open spec fn unused_tx_gain() -> LgwTxGain {
    LgwTxGain { rf_power: 0, dig_gain: 0, pa_gain: 0, dac_gain: 0, mix_gain: 0, offset_i: 0, offset_q: 0, pwr_idx: 0 }
}

/// `lut` is the TX gain table of `gains`: each gain in its place, zeros after them.
pub open spec fn tx_gain_table(gains: Seq<TxGainConfig>, lut: LgwTxGainLut) -> bool {
    &&& lut.size == gains.len()
    &&& forall|i: int|
        0 <= i < 16 ==> #[trigger] lut.lut[i] == if i < gains.len() {
            gains[i].spec_to_hal()
        } else {
            unused_tx_gain()
        }
}

/// The TX gain table that configures an RF chain with `txgain` (at most the 16
/// entries the table has).
pub fn tx_gain_lut(txgain: &[TxGainConfig]) -> (r: LgwTxGainLut)
    requires
        txgain@.len() <= 16,
    ensures
        tx_gain_table(txgain@, r),
{
    let unused = LgwTxGain { rf_power: 0, dig_gain: 0, pa_gain: 0, dac_gain: 0, mix_gain: 0, offset_i: 0, offset_q: 0, pwr_idx: 0 };
    let mut lut = [unused; 16];
    let mut i: usize = 0;
    while i < txgain.len()
        invariant
            txgain@.len() <= 16,
            unused == unused_tx_gain(),
            i <= txgain@.len(),
            forall|j: int| 0 <= j < i ==> #[trigger] lut[j] == txgain@[j].spec_to_hal(),
            forall|j: int| i <= j < 16 ==> #[trigger] lut[j] == unused_tx_gain(),
        decreases txgain@.len() - i,
    {
        lut[i] = txgain[i].to_hal();
        i += 1;
    }
    LgwTxGainLut { lut, size: txgain.len() as u8 }
}

/// Structure containing the configuration of a packet to send and a pointer to the payload.
#[derive(Copy, Clone)]
pub struct TxPacket {
    /// Center frequency of TX.
    pub freq_hz: u32,
    /// Select on what event/time the TX is triggered.
    pub tx_mode: TxMode,
    /// Timestamp or delay in microseconds for TX trigger.
    pub count_us: u32,
    /// Through which RF chain will the packet be sent.
    pub rf_chain: u8,
    /// TX power, in dBm.
    pub rf_power: i8,
    /// Modulation to use for the packet.
    pub modulation: Modulation,
    /// Frequency offset from Radio Tx frequency (CW mode).
    pub freq_offset: i8,
    /// Modulation bandwidth (LoRa only).
    pub bandwidth: u32,
    /// TX datarate (baudrate for FSK, SF for LoRa).
    pub datarate: DataRate,
    /// Error-correcting code of the packet (LoRa only).
    pub coderate: CodeRate,
    /// Onvert signal polarity, for orthogonal downlinks (LoRa only).
    pub invert_pol: bool,
    /// Frequency deviation, in kHz (FSK only).
    pub f_dev: u8,
    /// Set the preamble length, 0 for default.
    pub preamble: u16,
    /// If true, do not send a CRC in the packet.
    pub no_crc: bool,
    /// Of true, enable implicit header mode (LoRa), fixed length (FSK).
    pub no_header: bool,
    /// Payload size in bytes.
    pub size: u16,
    /// Buffer containing the payload.
    pub payload: [u8; 256],
}

impl Default for TxPacket {
    fn default() -> (p: Self)
        ensures
            p.freq_hz == 0,
            p.tx_mode == TxMode::Immediate,
            p.count_us == 0,
            p.rf_chain == 0,
            p.rf_power == 0,
            p.modulation == Modulation::Undefined,
            p.freq_offset == 0,
            p.bandwidth == 0,
            p.datarate == DataRate::Undefined,
            p.coderate == CodeRate::Undefined,
            !p.invert_pol,
            p.f_dev == 0,
            p.preamble == 0,
            !p.no_crc,
            !p.no_header,
            p.size == 0,
            forall|i: int| 0 <= i < 256 ==> #[trigger] p.payload[i] == 0,
    {
        TxPacket {
            freq_hz: 0,
            tx_mode: TxMode::Immediate,
            count_us: 0,
            rf_chain: 0,
            rf_power: 0,
            modulation: Modulation::Undefined,
            freq_offset: 0,
            bandwidth: 0,
            datarate: DataRate::Undefined,
            coderate: CodeRate::Undefined,
            invert_pol: false,
            f_dev: 0,
            preamble: 0,
            no_crc: false,
            no_header: false,
            size: 0,
            payload: [0; 256],
        }
    }
}

impl TxPacket {
    pub fn to_hal(&self) -> (p: LgwPktTx)
        ensures
            p.freq_hz == self.freq_hz,
            p.tx_mode == self.tx_mode.spec_to_hal(),
            p.count_us == self.count_us,
            p.rf_chain == self.rf_chain,
            p.rf_power == self.rf_power,
            p.modulation == self.modulation.spec_to_hal(),
            p.freq_offset == self.freq_offset,
            p.bandwidth == spec_bandwidth_to_hal(self.bandwidth),
            p.datarate == self.datarate.spec_to_hal(),
            p.coderate == self.coderate.spec_to_hal(),
            p.invert_pol == self.invert_pol,
            p.f_dev == self.f_dev,
            p.preamble == self.preamble,
            p.no_crc == self.no_crc,
            p.no_header == self.no_header,
            p.size == self.size,
            p.payload == self.payload,
    {
        LgwPktTx {
            freq_hz: self.freq_hz,
            tx_mode: self.tx_mode.to_hal(),
            count_us: self.count_us,
            rf_chain: self.rf_chain,
            rf_power: self.rf_power,
            modulation: self.modulation.to_hal(),
            freq_offset: self.freq_offset,
            bandwidth: bandwidth_to_hal(self.bandwidth),
            datarate: self.datarate.to_hal(),
            coderate: self.coderate.to_hal(),
            invert_pol: self.invert_pol,
            f_dev: self.f_dev,
            preamble: self.preamble,
            no_crc: self.no_crc,
            no_header: self.no_header,
            size: self.size,
            payload: self.payload,
        }
    }
}

/// Configuration structure for the timestamp.
pub struct TimestampConfig {
    /// Enable / Disable fine timestamping.
    pub enable: bool,
    /// Fine timestamping mode.
    pub mode: FineTimestampMode,
}

impl TimestampConfig {
    pub fn to_hal(&self) -> (c: LgwConfFtime)
        ensures
            c.enable == self.enable,
            c.mode == self.mode.spec_to_hal(),
    {
        LgwConfFtime { enable: self.enable, mode: self.mode.to_hal() }
    }
}

/// Structure containing a Listen-Before-Talk channel configuration.
pub struct LBTChannelConfig {
    /// LBT channel frequency.
    pub freq_hz: u32,
    /// BT channel bandwidth.
    pub bandwidth: u32,
    /// LBT channel carrier sense time.
    pub scan_time: LBTScanTime,
    /// LBT channel transmission duration when allowed.
    pub transmit_time_ms: u16,
}

impl LBTChannelConfig {
    /// The HAL structure for this channel.
    pub open spec fn spec_to_hal(&self) -> LgwConfChanLbt {
        LgwConfChanLbt {
            freq_hz: self.freq_hz,
            bandwidth: spec_bandwidth_to_hal(self.bandwidth),
            scan_time_us: self.scan_time.spec_to_hal(),
            transmit_time_ms: self.transmit_time_ms,
        }
    }

    pub fn to_hal(&self) -> (c: LgwConfChanLbt)
        ensures
            c == self.spec_to_hal(),
    {
        LgwConfChanLbt {
            freq_hz: self.freq_hz,
            bandwidth: bandwidth_to_hal(self.bandwidth),
            scan_time_us: self.scan_time.to_hal(),
            transmit_time_ms: self.transmit_time_ms,
        }
    }
}

/// An unused listen-before-talk channel: all zeros.
pub open spec fn unused_lbt_channel() -> LgwConfChanLbt {
    LgwConfChanLbt { freq_hz: 0, bandwidth: 0, scan_time_us: 0, transmit_time_ms: 0 }
}

/// `c` is the HAL configuration of listen-before-talk for `conf`: the same
/// settings, the number of channels, each channel in its place and zeros after them.
pub open spec fn lbt_config_on_hal(conf: &LBTConfig, c: &LgwConfLbt) -> bool {
    &&& c.enable == conf.enable
    &&& c.rssi_target == conf.rssi_target
    &&& c.nb_channel == conf.channels@.len()
    &&& forall|i: int|
        0 <= i < 16 ==> #[trigger] c.channels[i] == if i < conf.channels@.len() {
            conf.channels@[i].spec_to_hal()
        } else {
            unused_lbt_channel()
        }
}

/// Configuration structure for listen-before-talk.
pub struct LBTConfig {
    /// Enable or disable LBT.
    pub enable: bool,
    /// RSSI threshold to detect if channel is busy or not (dBm).
    pub rssi_target: i8,
    /// LBT channels configuration.
    pub channels: Vec<LBTChannelConfig>,
}

impl LBTConfig {
    pub fn to_hal(&self) -> (r: Result<LgwConfLbt, String>)
        ensures
            self.channels@.len() > LGW_LBT_CHANNEL_NB_MAX ==> (r matches Err(e) && e@
                == "channels exceeds LGW_LBT_CHANNEL_NB_MAX"@),
            self.channels@.len() <= LGW_LBT_CHANNEL_NB_MAX ==> (r matches Ok(c) && lbt_config_on_hal(self, &c)),
    {
        if self.channels.len() > LGW_LBT_CHANNEL_NB_MAX {
            return Err("channels exceeds LGW_LBT_CHANNEL_NB_MAX".to_string());
        }

        let unused = LgwConfChanLbt { freq_hz: 0, bandwidth: 0, scan_time_us: 0, transmit_time_ms: 0 };
        let mut channels = [unused; 16];
        let mut i: usize = 0;
        while i < self.channels.len()
            invariant
                self.channels@.len() <= 16,
                unused == unused_lbt_channel(),
                i <= self.channels@.len(),
                forall|j: int| 0 <= j < i ==> #[trigger] channels[j] == self.channels@[j].spec_to_hal(),
                forall|j: int| i <= j < 16 ==> #[trigger] channels[j] == unused_lbt_channel(),
            decreases self.channels@.len() - i,
        {
            channels[i] = self.channels[i].to_hal();
            i += 1;
        }

        Ok(LgwConfLbt {
            enable: self.enable,
            rssi_target: self.rssi_target,
            nb_channel: self.channels.len() as u8,
            channels,
        })
    }
}

/// Configuration structure for additional SX1261 radio used for LBT and Spectral Scan.
pub struct SX1261Config {
    /// Enable or disable SX1261 radio.
    pub enable: bool,
    /// Path to access the SPI device to connect to the SX1261 (not used for USB com type).
    pub spi_path: String,
    /// Value to be applied to the sx1261 RSSI value (dBm).
    pub rssi_offset: i8,
    /// Listen-before-talk configuration.
    pub lbt_config: LBTConfig,
}

impl SX1261Config {
    pub fn to_hal(&self) -> (r: Result<LgwConfSx1261, String>)
        requires
            !encode_utf8(self.spi_path@).contains(0u8),
        ensures
            encode_utf8(self.spi_path@).len() + 1 > 64 ==> (r matches Err(e) && e@ == "spi_path max length is 64"@),
            encode_utf8(self.spi_path@).len() + 1 <= 64 && self.lbt_config.channels@.len()
                > LGW_LBT_CHANNEL_NB_MAX ==> (r matches Err(e) && e@ == "channels exceeds LGW_LBT_CHANNEL_NB_MAX"@),
            encode_utf8(self.spi_path@).len() + 1 <= 64 && self.lbt_config.channels@.len()
                <= LGW_LBT_CHANNEL_NB_MAX ==> (r matches Ok(c) && {
                &&& c.enable == self.enable
                &&& c_path_array(encode_utf8(self.spi_path@), c.spi_path)
                &&& c.rssi_offset == self.rssi_offset
                &&& lbt_config_on_hal(&self.lbt_config, &c.lbt_conf)
            }),
    {
        let spi_path = match c_path(self.spi_path.as_str()) {
            Some(v) => v,
            None => {
                return Err("spi_path max length is 64".to_string());
            },
        };
        let lbt_conf = match self.lbt_config.to_hal() {
            Ok(v) => v,
            Err(e) => {
                return Err(e);
            },
        };

        Ok(LgwConfSx1261 { enable: self.enable, spi_path, rssi_offset: self.rssi_offset, lbt_conf })
    }
}

/// Spectral scan result.
pub struct SpectralScanResult {
    /// dBm level.
    pub dbm_level: i16,
    /// Result.
    pub result: u16,
}


/// Each value goes to the HAL as the constant of its name.
pub proof fn lemma_bandwidth_to_hal_constants()
    ensures
        spec_bandwidth_to_hal(500000u32) == BW_500KHZ as u8,
        spec_bandwidth_to_hal(250000u32) == BW_250KHZ as u8,
        spec_bandwidth_to_hal(125000u32) == BW_125KHZ as u8,
{
}

/// Each HAL constant is read as the value of its name.
pub proof fn lemma_bandwidth_from_hal_constants()
    ensures
        spec_bandwidth_from_hal(BW_500KHZ as u8) == 500000,
        spec_bandwidth_from_hal(BW_250KHZ as u8) == 250000,
        spec_bandwidth_from_hal(BW_125KHZ as u8) == 125000,
{
}

/// Each value goes to the HAL as the constant of its name.
pub proof fn lemma_radio_type_to_hal_constants()
    ensures
        RadioType::NONE.spec_to_hal() == LGW_RADIO_TYPE_NONE,
        RadioType::SX1255.spec_to_hal() == LGW_RADIO_TYPE_SX1255,
        RadioType::SX1257.spec_to_hal() == LGW_RADIO_TYPE_SX1257,
        RadioType::SX1272.spec_to_hal() == LGW_RADIO_TYPE_SX1272,
        RadioType::SX1276.spec_to_hal() == LGW_RADIO_TYPE_SX1276,
        RadioType::SX1250.spec_to_hal() == LGW_RADIO_TYPE_SX1250,
{
}

/// Each HAL constant is read as the value of its name.
pub proof fn lemma_crc_from_hal_constants()
    ensures
        CRC::spec_from_hal(STAT_NO_CRC as u8) == CRC::NoCRC,
        CRC::spec_from_hal(STAT_CRC_BAD as u8) == CRC::BadCRC,
        CRC::spec_from_hal(STAT_CRC_OK as u8) == CRC::CRCOk,
{
}

/// Each value goes to the HAL as the constant of its name.
pub proof fn lemma_modulation_to_hal_constants()
    ensures
        Modulation::Undefined.spec_to_hal() == MOD_UNDEFINED as u8,
        Modulation::LoRa.spec_to_hal() == MOD_LORA as u8,
        Modulation::FSK.spec_to_hal() == MOD_FSK as u8,
{
}

/// Each HAL constant is read as the value of its name.
pub proof fn lemma_modulation_from_hal_constants()
    ensures
        Modulation::spec_from_hal(MOD_LORA as u8) == Modulation::LoRa,
        Modulation::spec_from_hal(MOD_FSK as u8) == Modulation::FSK,
{
}

/// Each value goes to the HAL as the constant of its name.
pub proof fn lemma_data_rate_to_hal_constants()
    ensures
        DataRate::Undefined.spec_to_hal() == DR_UNDEFINED,
        DataRate::SF5.spec_to_hal() == DR_LORA_SF5,
        DataRate::SF6.spec_to_hal() == DR_LORA_SF6,
        DataRate::SF7.spec_to_hal() == DR_LORA_SF7,
        DataRate::SF8.spec_to_hal() == DR_LORA_SF8,
        DataRate::SF9.spec_to_hal() == DR_LORA_SF9,
        DataRate::SF10.spec_to_hal() == DR_LORA_SF10,
        DataRate::SF11.spec_to_hal() == DR_LORA_SF11,
        DataRate::SF12.spec_to_hal() == DR_LORA_SF12,
        DataRate::FSKMin.spec_to_hal() == DR_FSK_MIN,
        DataRate::FSKMax.spec_to_hal() == DR_FSK_MAX,
{
}

/// Each HAL constant is read as the value of its name.
pub proof fn lemma_data_rate_from_hal_constants()
    ensures
        DataRate::spec_from_hal(DR_UNDEFINED) == DataRate::Undefined,
        DataRate::spec_from_hal(DR_LORA_SF5) == DataRate::SF5,
        DataRate::spec_from_hal(DR_LORA_SF6) == DataRate::SF6,
        DataRate::spec_from_hal(DR_LORA_SF7) == DataRate::SF7,
        DataRate::spec_from_hal(DR_LORA_SF8) == DataRate::SF8,
        DataRate::spec_from_hal(DR_LORA_SF9) == DataRate::SF9,
        DataRate::spec_from_hal(DR_LORA_SF10) == DataRate::SF10,
        DataRate::spec_from_hal(DR_LORA_SF11) == DataRate::SF11,
        DataRate::spec_from_hal(DR_LORA_SF12) == DataRate::SF12,
{
}

/// Each value goes to the HAL as the constant of its name.
pub proof fn lemma_code_rate_to_hal_constants()
    ensures
        CodeRate::Undefined.spec_to_hal() == CR_UNDEFINED as u8,
        CodeRate::LoRa4_5.spec_to_hal() == CR_LORA_4_5 as u8,
        CodeRate::LoRa4_6.spec_to_hal() == CR_LORA_4_6 as u8,
        CodeRate::LoRa4_7.spec_to_hal() == CR_LORA_4_7 as u8,
        CodeRate::LoRa4_8.spec_to_hal() == CR_LORA_4_8 as u8,
{
}

/// Each HAL constant is read as the value of its name.
pub proof fn lemma_code_rate_from_hal_constants()
    ensures
        CodeRate::spec_from_hal(CR_LORA_4_5 as u8) == CodeRate::LoRa4_5,
        CodeRate::spec_from_hal(CR_LORA_4_6 as u8) == CodeRate::LoRa4_6,
        CodeRate::spec_from_hal(CR_LORA_4_7 as u8) == CodeRate::LoRa4_7,
        CodeRate::spec_from_hal(CR_LORA_4_8 as u8) == CodeRate::LoRa4_8,
{
}

/// Each value goes to the HAL as the constant of its name.
pub proof fn lemma_status_select_to_hal_constants()
    ensures
        StatusSelect::Tx.spec_to_hal() == TX_STATUS as u8,
        StatusSelect::Rx.spec_to_hal() == RX_STATUS as u8,
{
}

/// Each HAL constant is read as the value of its name.
pub proof fn lemma_tx_status_from_hal_constants()
    ensures
        TxStatus::spec_from_hal(TX_OFF as u8) == TxStatus::Off,
        TxStatus::spec_from_hal(TX_FREE as u8) == TxStatus::Free,
        TxStatus::spec_from_hal(TX_SCHEDULED as u8) == TxStatus::Scheduled,
        TxStatus::spec_from_hal(TX_EMITTING as u8) == TxStatus::Emitting,
{
}

/// Each HAL constant is read as the value of its name.
pub proof fn lemma_rx_status_from_hal_constants()
    ensures
        RxStatus::spec_from_hal(RX_OFF as u8) == RxStatus::Off,
        RxStatus::spec_from_hal(RX_ON as u8) == RxStatus::On,
        RxStatus::spec_from_hal(RX_SUSPENDED as u8) == RxStatus::Suspended,
{
}

/// Each value goes to the HAL as the constant of its name.
pub proof fn lemma_fine_timestamp_mode_to_hal_constants()
    ensures
        FineTimestampMode::HighCapacity.spec_to_hal() == LGW_FTIME_MODE_HIGH_CAPACITY,
        FineTimestampMode::AllSF.spec_to_hal() == LGW_FTIME_MODE_ALL_SF,
{
}

/// Each value goes to the HAL as the constant of its name.
pub proof fn lemma_lbtscan_time_to_hal_constants()
    ensures
        LBTScanTime::Scan128US.spec_to_hal() == LGW_LBT_SCAN_TIME_128_US,
        LBTScanTime::Scan5000US.spec_to_hal() == LGW_LBT_SCAN_TIME_5000_US,
{
}

} // verus!
