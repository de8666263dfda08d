//! The Rust side of the 2.4 GHz gateway HAL: the types of its configuration and
//! packets, and how they map to the values and structures of the C library.
use vstd::prelude::*;
use vstd::utf8::encode_utf8;

use super::hal_c::{
    LgwConfBoard, LgwConfChannelTx, LgwPktTx, BW_1600KHZ, BW_200KHZ, BW_400KHZ, BW_800KHZ, CR_LORA_4_5,
    CR_LORA_4_6, CR_LORA_4_7, CR_LORA_4_8, CR_LORA_LI_4_5, CR_LORA_LI_4_6, CR_LORA_LI_4_8, CW_OFF, CW_ON,
    DR_LORA_SF10, DR_LORA_SF11, DR_LORA_SF12, DR_LORA_SF5, DR_LORA_SF6, DR_LORA_SF7, DR_LORA_SF8,
    DR_LORA_SF9, IMMEDIATE, ON_GPS, RX_OFF, RX_ON, RX_STATUS, RX_STATUS_UNKNOWN, RX_SUSPENDED,
    STAT_CRC_BAD, STAT_CRC_OK, STAT_NO_CRC, STAT_UNDEFINED, TEMP_SRC_EXT, TEMP_SRC_MCU, TIMESTAMPED,
    TX_EMITTING, TX_FREE, TX_OFF, TX_SCHEDULED, TX_STATUS, TX_STATUS_UNKNOWN,
};
use crate::c_string::{c_path, c_path_array};

verus! {

/// The bandwidth in Hz of a HAL value (0 for a value that names none). The HAL
/// names its bandwidths by round values; the radio's actual bandwidths are these.
pub open spec fn spec_bandwidth_from_hal(bandwidth: u32) -> u32 {
    if bandwidth == BW_200KHZ {
        203000
    } else if bandwidth == BW_400KHZ {
        406000
    } else if bandwidth == BW_800KHZ {
        812000
    } else if bandwidth == BW_1600KHZ {
        1625000
    } else {
        0
    }
}

/// The HAL value of a bandwidth in Hz (0 for a bandwidth the HAL lacks).
pub open spec fn spec_bandwidth_to_hal(bandwidth: u32) -> u32 {
    if bandwidth == 203000 {
        BW_200KHZ
    } else if bandwidth == 406000 {
        BW_400KHZ
    } else if bandwidth == 812000 {
        BW_800KHZ
    } else if bandwidth == 1625000 {
        BW_1600KHZ
    } else {
        0
    }
}

pub fn bandwidth_from_hal(bandwidth: u32) -> (r: u32)
    ensures
        r == spec_bandwidth_from_hal(bandwidth),
{
    if bandwidth == BW_200KHZ {
        203000
    } else if bandwidth == BW_400KHZ {
        406000
    } else if bandwidth == BW_800KHZ {
        812000
    } else if bandwidth == BW_1600KHZ {
        1625000
    } else {
        0
    }
}

pub fn bandwidth_to_hal(bandwidth: u32) -> (r: u32)
    ensures
        r == spec_bandwidth_to_hal(bandwidth),
{
    match bandwidth {
        203000 => BW_200KHZ,
        406000 => BW_400KHZ,
        812000 => BW_800KHZ,
        1625000 => BW_1600KHZ,
        _ => 0,
    }
}

/// Every bandwidth the HAL names comes back from its value in Hz.
pub proof fn lemma_bandwidth_round_trip(bandwidth: u32)
    requires
        spec_bandwidth_from_hal(bandwidth) != 0,
    ensures
        spec_bandwidth_to_hal(spec_bandwidth_from_hal(bandwidth)) == bandwidth,
{
}

#[derive(Debug, Copy, Clone, PartialEq, Eq, Structural)]
pub enum CRC {
    Undefined,
    NoCRC,
    BadCRC,
    CRCOk,
}

impl CRC {
    pub open spec fn spec_from_hal(status: u8) -> CRC {
        if status as u32 == STAT_UNDEFINED {
            CRC::Undefined
        } else if status as u32 == STAT_NO_CRC {
            CRC::NoCRC
        } else if status as u32 == STAT_CRC_BAD {
            CRC::BadCRC
        } else if status as u32 == STAT_CRC_OK {
            CRC::CRCOk
        } else {
            CRC::Undefined
        }
    }

    pub fn from_hal(status: u8) -> (r: Self)
        ensures
            r == Self::spec_from_hal(status),
    {
        let s = status as u32;
        if s == STAT_UNDEFINED {
            CRC::Undefined
        } else if s == STAT_NO_CRC {
            CRC::NoCRC
        } else if s == STAT_CRC_BAD {
            CRC::BadCRC
        } else if s == STAT_CRC_OK {
            CRC::CRCOk
        } else {
            CRC::Undefined
        }
    }
}

#[derive(Debug, Copy, Clone, PartialEq, Eq, Structural)]
pub enum Modulation {
    LoRa,
}

impl Modulation {
    /// The HAL reports LoRa, and LoRa is also what any other value is read as.
    pub fn from_hal(modulation: u32) -> (r: Self)
        ensures
            r == Modulation::LoRa,
    {
        Modulation::LoRa
    }
}

#[derive(Debug, Copy, Clone, PartialEq, Eq, Structural)]
pub enum DataRate {
    SF5,
    SF6,
    SF7,
    SF8,
    SF9,
    SF10,
    SF11,
    SF12,
}

impl DataRate {
    pub open spec fn spec_to_hal(&self) -> u32 {
        match self {
            DataRate::SF5 => DR_LORA_SF5,
            DataRate::SF6 => DR_LORA_SF6,
            DataRate::SF7 => DR_LORA_SF7,
            DataRate::SF8 => DR_LORA_SF8,
            DataRate::SF9 => DR_LORA_SF9,
            DataRate::SF10 => DR_LORA_SF10,
            DataRate::SF11 => DR_LORA_SF11,
            DataRate::SF12 => DR_LORA_SF12,
        }
    }

    /// The spreading factor of a HAL value (SF5 for a value that names none).
    pub open spec fn spec_from_hal(datarate: u32) -> DataRate {
        if datarate == DR_LORA_SF5 {
            DataRate::SF5
        } else if datarate == DR_LORA_SF6 {
            DataRate::SF6
        } else if datarate == DR_LORA_SF7 {
            DataRate::SF7
        } else if datarate == DR_LORA_SF8 {
            DataRate::SF8
        } else if datarate == DR_LORA_SF9 {
            DataRate::SF9
        } else if datarate == DR_LORA_SF10 {
            DataRate::SF10
        } else if datarate == DR_LORA_SF11 {
            DataRate::SF11
        } else if datarate == DR_LORA_SF12 {
            DataRate::SF12
        } else {
            DataRate::SF5
        }
    }

    pub fn to_hal(&self) -> (r: u32)
        ensures
            r == self.spec_to_hal(),
    {
        match self {
            DataRate::SF5 => DR_LORA_SF5,
            DataRate::SF6 => DR_LORA_SF6,
            DataRate::SF7 => DR_LORA_SF7,
            DataRate::SF8 => DR_LORA_SF8,
            DataRate::SF9 => DR_LORA_SF9,
            DataRate::SF10 => DR_LORA_SF10,
            DataRate::SF11 => DR_LORA_SF11,
            DataRate::SF12 => DR_LORA_SF12,
        }
    }

    pub fn from_hal(datarate: u32) -> (r: Self)
        ensures
            r == Self::spec_from_hal(datarate),
    {
        if datarate == DR_LORA_SF5 {
            DataRate::SF5
        } else if datarate == DR_LORA_SF6 {
            DataRate::SF6
        } else if datarate == DR_LORA_SF7 {
            DataRate::SF7
        } else if datarate == DR_LORA_SF8 {
            DataRate::SF8
        } else if datarate == DR_LORA_SF9 {
            DataRate::SF9
        } else if datarate == DR_LORA_SF10 {
            DataRate::SF10
        } else if datarate == DR_LORA_SF11 {
            DataRate::SF11
        } else if datarate == DR_LORA_SF12 {
            DataRate::SF12
        } else {
            DataRate::SF5
        }
    }
}

/// A data rate mapped to the HAL and back is the same data rate.
pub proof fn lemma_data_rate_round_trip(d: DataRate)
    ensures
        DataRate::spec_from_hal(d.spec_to_hal()) == d,
{
}

#[derive(Debug, Copy, Clone, PartialEq, Eq, Structural)]
pub enum CodeRate {
    LoRa4_5,
    LoRa4_6,
    LoRa4_7,
    LoRa4_8,
    LoRaLi4_5,
    LoRaLi4_6,
    LoRaLi4_8,
}

impl CodeRate {
    pub open spec fn spec_to_hal(&self) -> u32 {
        match self {
            CodeRate::LoRa4_5 => CR_LORA_4_5,
            CodeRate::LoRa4_6 => CR_LORA_4_6,
            CodeRate::LoRa4_7 => CR_LORA_4_7,
            CodeRate::LoRa4_8 => CR_LORA_4_8,
            CodeRate::LoRaLi4_5 => CR_LORA_LI_4_5,
            CodeRate::LoRaLi4_6 => CR_LORA_LI_4_6,
            CodeRate::LoRaLi4_8 => CR_LORA_LI_4_8,
        }
    }

    /// The coding rate of a HAL value (4/5 for a value that names none).
    pub open spec fn spec_from_hal(coderate: u32) -> CodeRate {
        if coderate == CR_LORA_4_5 {
            CodeRate::LoRa4_5
        } else if coderate == CR_LORA_4_6 {
            CodeRate::LoRa4_6
        } else if coderate == CR_LORA_4_7 {
            CodeRate::LoRa4_7
        } else if coderate == CR_LORA_4_8 {
            CodeRate::LoRa4_8
        } else if coderate == CR_LORA_LI_4_5 {
            CodeRate::LoRaLi4_5
        } else if coderate == CR_LORA_LI_4_6 {
            CodeRate::LoRaLi4_6
        } else if coderate == CR_LORA_LI_4_8 {
            CodeRate::LoRaLi4_8
        } else {
            CodeRate::LoRa4_5
        }
    }

    pub fn to_hal(&self) -> (r: u32)
        ensures
            r == self.spec_to_hal(),
    {
        match self {
            CodeRate::LoRa4_5 => CR_LORA_4_5,
            CodeRate::LoRa4_6 => CR_LORA_4_6,
            CodeRate::LoRa4_7 => CR_LORA_4_7,
            CodeRate::LoRa4_8 => CR_LORA_4_8,
            CodeRate::LoRaLi4_5 => CR_LORA_LI_4_5,
            CodeRate::LoRaLi4_6 => CR_LORA_LI_4_6,
            CodeRate::LoRaLi4_8 => CR_LORA_LI_4_8,
        }
    }

    pub fn from_hal(coderate: u32) -> (r: Self)
        ensures
            r == Self::spec_from_hal(coderate),
    {
        if coderate == CR_LORA_4_5 {
            CodeRate::LoRa4_5
        } else if coderate == CR_LORA_4_6 {
            CodeRate::LoRa4_6
        } else if coderate == CR_LORA_4_7 {
            CodeRate::LoRa4_7
        } else if coderate == CR_LORA_4_8 {
            CodeRate::LoRa4_8
        } else if coderate == CR_LORA_LI_4_5 {
            CodeRate::LoRaLi4_5
        } else if coderate == CR_LORA_LI_4_6 {
            CodeRate::LoRaLi4_6
        } else if coderate == CR_LORA_LI_4_8 {
            CodeRate::LoRaLi4_8
        } else {
            CodeRate::LoRa4_5
        }
    }
}

/// A coding rate mapped to the HAL and back is the same coding rate.
pub proof fn lemma_code_rate_round_trip(c: CodeRate)
    ensures
        CodeRate::spec_from_hal(c.spec_to_hal()) == c,
{
}

#[derive(Debug, Copy, Clone, PartialEq, Eq, Structural)]
pub enum TxMode {
    Timestamped,
    Immediate,
    OnGPS,
    CWOn,
    CWOff,
}

impl TxMode {
    pub open spec fn spec_to_hal(&self) -> u32 {
        match self {
            TxMode::Timestamped => TIMESTAMPED,
            TxMode::Immediate => IMMEDIATE,
            TxMode::OnGPS => ON_GPS,
            TxMode::CWOn => CW_ON,
            TxMode::CWOff => CW_OFF,
        }
    }

    pub fn to_hal(&self) -> (r: u32)
        ensures
            r == self.spec_to_hal(),
    {
        match self {
            TxMode::Timestamped => TIMESTAMPED,
            TxMode::Immediate => IMMEDIATE,
            TxMode::OnGPS => ON_GPS,
            TxMode::CWOn => CW_ON,
            TxMode::CWOff => CW_OFF,
        }
    }
}

#[derive(PartialEq, Eq, Structural)]
pub enum StatusSelect {
    Tx,
    Rx,
}

impl StatusSelect {
    pub fn to_hal(&self) -> (r: u32)
        ensures
            r == match self {
                StatusSelect::Tx => TX_STATUS,
                StatusSelect::Rx => RX_STATUS,
            },
    {
        match self {
            StatusSelect::Tx => TX_STATUS,
            StatusSelect::Rx => RX_STATUS,
        }
    }
}

pub enum StatusReturn {
    Tx(TxStatus),
    Rx(RxStatus),
}

#[derive(Debug, PartialEq, Eq, Structural)]
pub enum TxStatus {
    Unknown,
    Off,
    Free,
    Scheduled,
    Emitting,
}

impl TxStatus {
    pub fn from_hal(code: u32) -> (r: Self)
        ensures
            r == (if code == TX_STATUS_UNKNOWN {
                TxStatus::Unknown
            } else if code == TX_OFF {
                TxStatus::Off
            } else if code == TX_FREE {
                TxStatus::Free
            } else if code == TX_SCHEDULED {
                TxStatus::Scheduled
            } else if code == TX_EMITTING {
                TxStatus::Emitting
            } else {
                TxStatus::Unknown
            }),
    {
        if code == TX_STATUS_UNKNOWN {
            TxStatus::Unknown
        } else if code == TX_OFF {
            TxStatus::Off
        } else if code == TX_FREE {
            TxStatus::Free
        } else if code == TX_SCHEDULED {
            TxStatus::Scheduled
        } else if code == TX_EMITTING {
            TxStatus::Emitting
        } else {
            TxStatus::Unknown
        }
    }
}

#[derive(Debug, PartialEq, Eq, Structural)]
pub enum RxStatus {
    Unknown,
    Off,
    On,
    Suspended,
}

impl RxStatus {
    pub fn from_hal(code: u32) -> (r: Self)
        ensures
            r == (if code == RX_STATUS_UNKNOWN {
                RxStatus::Unknown
            } else if code == RX_OFF {
                RxStatus::Off
            } else if code == RX_ON {
                RxStatus::On
            } else if code == RX_SUSPENDED {
                RxStatus::Suspended
            } else {
                RxStatus::Unknown
            }),
    {
        if code == RX_STATUS_UNKNOWN {
            RxStatus::Unknown
        } else if code == RX_OFF {
            RxStatus::Off
        } else if code == RX_ON {
            RxStatus::On
        } else if code == RX_SUSPENDED {
            RxStatus::Suspended
        } else {
            RxStatus::Unknown
        }
    }
}

#[derive(Debug, Copy, Clone, PartialEq, Eq, Structural)]
pub enum TemperatureSource {
    /// The temperature has been measured with an external sensor.
    Ext,
    /// The temperature has been measured by the gateway MCU.
    Mcu,
}

impl TemperatureSource {
    pub fn to_hal(&self) -> (r: u32)
        ensures
            r == match self {
                TemperatureSource::Ext => TEMP_SRC_EXT,
                TemperatureSource::Mcu => TEMP_SRC_MCU,
            },
    {
        match self {
            TemperatureSource::Ext => TEMP_SRC_EXT,
            TemperatureSource::Mcu => TEMP_SRC_MCU,
        }
    }
}

/// Configuration structure for board specificities.
pub struct BoardConfig {
    /// Path to access the TTY device to connect to concentrator board.
    pub tty_path: String,
}

impl BoardConfig {
    pub fn to_hal(&self) -> (r: Result<LgwConfBoard, String>)
        requires
            !encode_utf8(self.tty_path@).contains(0u8),
        ensures
            encode_utf8(self.tty_path@).len() + 1 > 64 ==> (r matches Err(e) && e@ == "tty_path max length is 64"@),
            encode_utf8(self.tty_path@).len() + 1 <= 64 ==> (r matches Ok(c) && c_path_array(
                encode_utf8(self.tty_path@),
                c.tty_path,
            )),
    {
        match c_path(self.tty_path.as_str()) {
            Some(tty_path) => Ok(LgwConfBoard { tty_path }),
            None => Err("tty_path max length is 64".to_string()),
        }
    }
}

/// Configuration structure for TX.
pub struct ChannelTxConfig {
    /// Enable or disable that channel.
    pub enable: bool,
}

impl ChannelTxConfig {
    pub fn to_hal(&self) -> (r: Result<LgwConfChannelTx, String>)
        ensures
            r matches Ok(c) && c.enable == self.enable,
    {
        Ok(LgwConfChannelTx { enable: self.enable })
    }
}

/// Structure containing the configuration of a packet to send and a pointer to the payload.
#[derive(Copy, Clone)]
pub struct TxPacket {
    /// Center frequency of TX.
    pub freq_hz: u32,
    /// Select on what event/time the TX is triggered.
    pub tx_mode: TxMode,
    /// Timestamp or delay in microseconds for TX trigger.
    pub count_us: u32,
    /// TX power, in dBm.
    pub rf_power: i8,
    /// Modulation bandwidth (LoRa only).
    pub bandwidth: u32,
    /// TX datarate (SF for LoRa).
    pub datarate: DataRate,
    /// Error-correcting code of the packet (LoRa only).
    pub coderate: CodeRate,
    /// Invert signal polarity, for orthogonal downlinks (LoRa only).
    pub invert_pol: bool,
    /// Set the preamble length, 0 for default.
    pub preamble: u16,
    /// Public:0x21, Private:0x12.
    pub sync_word: u8,
    /// If true, do not send a CRC in the packet.
    pub no_crc: bool,
    /// If true, enable implicit header mode (LoRa).
    pub no_header: bool,
    /// Payload size in bytes.
    pub size: u16,
    /// Buffer containing the payload.
    pub payload: [u8; 256],
}

impl Default for TxPacket {
    fn default() -> (p: Self)
        ensures
            p.freq_hz == 0,
            p.tx_mode == TxMode::Immediate,
            p.count_us == 0,
            p.rf_power == 0,
            p.bandwidth == 0,
            p.datarate == DataRate::SF5,
            p.coderate == CodeRate::LoRa4_5,
            !p.invert_pol,
            p.preamble == 0,
            p.sync_word == 0x21,
            !p.no_crc,
            !p.no_header,
            p.size == 0,
            forall|i: int| 0 <= i < 256 ==> #[trigger] p.payload[i] == 0,
    {
        TxPacket {
            freq_hz: 0,
            tx_mode: TxMode::Immediate,
            count_us: 0,
            rf_power: 0,
            bandwidth: 0,
            datarate: DataRate::SF5,
            coderate: CodeRate::LoRa4_5,
            invert_pol: false,
            preamble: 0,
            sync_word: 0x21,
            no_crc: false,
            no_header: false,
            size: 0,
            payload: [0; 256],
        }
    }
}

impl TxPacket {
    pub fn to_hal(&self) -> (p: LgwPktTx)
        ensures
            p.freq_hz == self.freq_hz,
            p.tx_mode == self.tx_mode.spec_to_hal(),
            p.count_us == self.count_us,
            p.rf_power == self.rf_power,
            p.bandwidth == spec_bandwidth_to_hal(self.bandwidth),
            p.datarate == self.datarate.spec_to_hal(),
            p.coderate == self.coderate.spec_to_hal(),
            p.invert_pol == self.invert_pol,
            p.preamble == self.preamble,
            p.sync_word == self.sync_word,
            p.no_crc == self.no_crc,
            p.no_header == self.no_header,
            p.size == self.size,
            p.payload == self.payload,
    {
        LgwPktTx {
            freq_hz: self.freq_hz,
            tx_mode: self.tx_mode.to_hal(),
            count_us: self.count_us,
            rf_power: self.rf_power,
            bandwidth: bandwidth_to_hal(self.bandwidth),
            datarate: self.datarate.to_hal(),
            coderate: self.coderate.to_hal(),
            invert_pol: self.invert_pol,
            preamble: self.preamble,
            sync_word: self.sync_word,
            no_crc: self.no_crc,
            no_header: self.no_header,
            size: self.size,
            payload: self.payload,
        }
    }
}


/// Each HAL constant is read as the value of its name.
pub proof fn lemma_bandwidth_from_hal_constants()
    ensures
        spec_bandwidth_from_hal(BW_200KHZ) == 203000,
        spec_bandwidth_from_hal(BW_400KHZ) == 406000,
        spec_bandwidth_from_hal(BW_800KHZ) == 812000,
        spec_bandwidth_from_hal(BW_1600KHZ) == 1625000,
{
}

/// Each value goes to the HAL as the constant of its name.
pub proof fn lemma_bandwidth_to_hal_constants()
    ensures
        spec_bandwidth_to_hal(203000u32) == BW_200KHZ,
        spec_bandwidth_to_hal(406000u32) == BW_400KHZ,
        spec_bandwidth_to_hal(812000u32) == BW_800KHZ,
        spec_bandwidth_to_hal(1625000u32) == BW_1600KHZ,
{
}

/// Each HAL constant is read as the value of its name.
pub proof fn lemma_crc_from_hal_constants()
    ensures
        CRC::spec_from_hal(STAT_UNDEFINED as u8) == CRC::Undefined,
        CRC::spec_from_hal(STAT_NO_CRC as u8) == CRC::NoCRC,
        CRC::spec_from_hal(STAT_CRC_BAD as u8) == CRC::BadCRC,
        CRC::spec_from_hal(STAT_CRC_OK as u8) == CRC::CRCOk,
{
}

/// Each value goes to the HAL as the constant of its name.
pub proof fn lemma_data_rate_to_hal_constants()
    ensures
        DataRate::SF5.spec_to_hal() == DR_LORA_SF5,
        DataRate::SF6.spec_to_hal() == DR_LORA_SF6,
        DataRate::SF7.spec_to_hal() == DR_LORA_SF7,
        DataRate::SF8.spec_to_hal() == DR_LORA_SF8,
        DataRate::SF9.spec_to_hal() == DR_LORA_SF9,
        DataRate::SF10.spec_to_hal() == DR_LORA_SF10,
        DataRate::SF11.spec_to_hal() == DR_LORA_SF11,
        DataRate::SF12.spec_to_hal() == DR_LORA_SF12,
{
}

/// Each HAL constant is read as the value of its name.
pub proof fn lemma_data_rate_from_hal_constants()
    ensures
        DataRate::spec_from_hal(DR_LORA_SF5) == DataRate::SF5,
        DataRate::spec_from_hal(DR_LORA_SF6) == DataRate::SF6,
        DataRate::spec_from_hal(DR_LORA_SF7) == DataRate::SF7,
        DataRate::spec_from_hal(DR_LORA_SF8) == DataRate::SF8,
        DataRate::spec_from_hal(DR_LORA_SF9) == DataRate::SF9,
        DataRate::spec_from_hal(DR_LORA_SF10) == DataRate::SF10,
        DataRate::spec_from_hal(DR_LORA_SF11) == DataRate::SF11,
        DataRate::spec_from_hal(DR_LORA_SF12) == DataRate::SF12,
{
}

/// Each value goes to the HAL as the constant of its name.
pub proof fn lemma_code_rate_to_hal_constants()
    ensures
        CodeRate::LoRa4_5.spec_to_hal() == CR_LORA_4_5,
        CodeRate::LoRa4_6.spec_to_hal() == CR_LORA_4_6,
        CodeRate::LoRa4_7.spec_to_hal() == CR_LORA_4_7,
        CodeRate::LoRa4_8.spec_to_hal() == CR_LORA_4_8,
        CodeRate::LoRaLi4_5.spec_to_hal() == CR_LORA_LI_4_5,
        CodeRate::LoRaLi4_6.spec_to_hal() == CR_LORA_LI_4_6,
        CodeRate::LoRaLi4_8.spec_to_hal() == CR_LORA_LI_4_8,
{
}

/// Each HAL constant is read as the value of its name.
pub proof fn lemma_code_rate_from_hal_constants()
    ensures
        CodeRate::spec_from_hal(CR_LORA_4_5) == CodeRate::LoRa4_5,
        CodeRate::spec_from_hal(CR_LORA_4_6) == CodeRate::LoRa4_6,
        CodeRate::spec_from_hal(CR_LORA_4_7) == CodeRate::LoRa4_7,
        CodeRate::spec_from_hal(CR_LORA_4_8) == CodeRate::LoRa4_8,
        CodeRate::spec_from_hal(CR_LORA_LI_4_5) == CodeRate::LoRaLi4_5,
        CodeRate::spec_from_hal(CR_LORA_LI_4_6) == CodeRate::LoRaLi4_6,
        CodeRate::spec_from_hal(CR_LORA_LI_4_8) == CodeRate::LoRaLi4_8,
{
}

/// Each value goes to the HAL as the constant of its name.
pub proof fn lemma_tx_mode_to_hal_constants()
    ensures
        TxMode::Timestamped.spec_to_hal() == TIMESTAMPED,
        TxMode::Immediate.spec_to_hal() == IMMEDIATE,
        TxMode::OnGPS.spec_to_hal() == ON_GPS,
        TxMode::CWOn.spec_to_hal() == CW_ON,
        TxMode::CWOff.spec_to_hal() == CW_OFF,
{
}

} // verus!
