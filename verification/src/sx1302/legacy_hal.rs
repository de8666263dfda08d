//! The earlier form of the SX1302 HAL bindings: the same types, mapped to the C
//! library by free functions.
use vstd::prelude::*;

use crate::c_string::{c_path, c_path_array};
use vstd::utf8::encode_utf8;

use super::hal_c::{
    LgwConfBoardSpidev, LgwConfRxif, LgwConfTimestamp, LgwTxGain, LgwTxGainLut, LgwPktTx, BW_125KHZ, BW_250KHZ, BW_500KHZ, BW_UNDEFINED, CR_LORA_4_5, CR_LORA_4_6, CR_LORA_4_7,
    CR_LORA_4_8, CR_UNDEFINED, DR_FSK_MAX, DR_FSK_MIN, DR_LORA_SF10, DR_LORA_SF11, DR_LORA_SF12,
    DR_LORA_SF5, DR_LORA_SF6, DR_LORA_SF7, DR_LORA_SF8, DR_LORA_SF9, DR_UNDEFINED, IMMEDIATE, MOD_FSK,
    MOD_LORA, MOD_UNDEFINED, ON_GPS, STAT_CRC_BAD, STAT_CRC_OK, STAT_NO_CRC, TIMESTAMPED,
};

verus! {

#[derive(Debug, Copy, Clone)]
pub enum RadioType {
    NONE,
    SX1255,
    SX1257,
    SX1272,
    SX1276,
    SX1250,
}

#[derive(Debug, Copy, Clone, PartialEq, Eq, Structural)]
pub enum CRC {
    Undefined,
    NoCRC,
    BadCRC,
    CRCOk,
}

#[derive(Debug, Copy, Clone, PartialEq, Eq, Structural)]
pub enum Modulation {
    Undefined,
    LoRa,
    FSK,
}

#[derive(Debug, Copy, Clone, PartialEq, Eq, Structural)]
pub enum DataRate {
    Undefined,
    SF5,
    SF6,
    SF7,
    SF8,
    SF9,
    SF10,
    SF11,
    SF12,
    FSK(u32),
    FSKMin,
    FSKMax,
}

#[derive(Debug, Copy, Clone, PartialEq, Eq, Structural)]
pub enum CodeRate {
    Undefined,
    LoRa4_5,
    LoRa4_6,
    LoRa4_7,
    LoRa4_8,
}

#[derive(Debug, Copy, Clone, PartialEq, Eq, Structural)]
pub enum TxMode {
    Immediate,
    Timestamped,
    OnGPS,
}

#[derive(PartialEq, Eq, Structural)]
pub enum StatusSelect {
    Tx,
    Rx,
}

pub enum StatusReturn {
    Tx(TxStatus),
    Rx(RxStatus),
}

#[derive(Debug)]
pub enum TxStatus {
    Unknown,
    Off,
    Free,
    Scheduled,
    Emitting,
}

#[derive(Debug)]
pub enum RxStatus {
    Unknown,
    Off,
    On,
    Suspended,
}

/// Configuration structure for board specificities.
pub struct BoardConfig {
    /// Enable ONLY for *public* networks using the LoRa MAC protocol.
    pub lorawan_public: bool,
    /// Index of RF chain which provides clock to concentrator.
    pub clock_source: u8,
    /// Indicates if the gateway operates in full duplex mode or not.
    pub full_duplex: bool,
    /// Path to access the SPI device to connect to the SX1302.
    pub spidev_path: String,
}

/// Configuration structure for an IF chain.
pub struct RxIfConfig {
    /// Enable or disable that IF chain.
    pub enable: bool,
    /// To which RF chain is that IF chain associated.
    pub rf_chain: u8,
    /// Center frequ of the IF chain, relative to RF chain frequency.
    pub freq_hz: i32,
    /// RX bandwidth, 0 for default.
    pub bandwidth: u32,
    /// RX datarate, 0 for default.
    pub datarate: DataRate,
    /// size of FSK sync word (number of bytes, 0 for default).
    pub sync_word_size: u8,
    /// FSK sync word (ALIGN RIGHT, eg. 0xC194C1).
    pub sync_word: u64,
    /// LoRa Service implicit header.
    pub implicit_header: bool,
    /// LoRa Service implicit header payload length (number of bytes, 0 for default).
    pub implicit_payload_length: u8,
    /// LoRa Service implicit header CRC enable.
    pub implicit_crc_enable: bool,
    /// LoRa Service implicit header coding rate.
    pub implicit_coderate: CodeRate,
}

impl Default for RxIfConfig {
    fn default() -> (c: Self)
        ensures
            !c.enable,
            c.rf_chain == 0,
            c.freq_hz == 0,
            c.bandwidth == 0,
            c.datarate == DataRate::Undefined,
            c.sync_word_size == 0,
            c.sync_word == 0,
            !c.implicit_header,
            c.implicit_payload_length == 0,
            !c.implicit_crc_enable,
            c.implicit_coderate == CodeRate::Undefined,
    {
        RxIfConfig {
            enable: false,
            rf_chain: 0,
            freq_hz: 0,
            bandwidth: 0,
            datarate: DataRate::Undefined,
            sync_word_size: 0,
            sync_word: 0,
            implicit_header: false,
            implicit_payload_length: 0,
            implicit_crc_enable: false,
            implicit_coderate: CodeRate::Undefined,
        }
    }
}

/// Structure containing all gains of Tx chain.
#[derive(Clone, Copy)]
pub struct TxGainConfig {
    /// Measured TX power at the board connector, in dBm.
    pub rf_power: i8,
    /// (sx125x) 2 bits: control of the digital gain of SX1302.
    pub dig_gain: u8,
    /// (sx125x) 2 bits: control of the external PA (SX1302 I/O).
    /// (sx1250) 1 bits: enable/disable the external PA (SX1302 I/O).
    pub pa_gain: u8,
    /// (sx125x) 2 bits: control of the radio DAC.
    pub dac_gain: u8,
    /// 4 bits: control of the radio mixer.
    pub mix_gain: u8,
    /// (sx125x) calibrated I offset.
    pub offset_i: i8,
    /// (sx125x) calibrated Q offset.
    pub offset_q: i8,
    /// (sx1250) 6 bits: control the radio power index to be used for configuration.
    pub pwr_idx: u8,
}

/// Structure containing the configuration of a packet to send and a pointer to the payload.
#[derive(Copy, Clone)]
pub struct TxPacket {
    /// Center frequency of TX.
    pub freq_hz: u32,
    /// Select on what event/time the TX is triggered.
    pub tx_mode: TxMode,
    /// Timestamp or delay in microseconds for TX trigger.
    pub count_us: u32,
    /// Through which RF chain will the packet be sent.
    pub rf_chain: u8,
    /// TX power, in dBm.
    pub rf_power: i8,
    /// Modulation to use for the packet.
    pub modulation: Modulation,
    /// Frequency offset from Radio Tx frequency (CW mode).
    pub freq_offset: i8,
    /// Modulation bandwidth (LoRa only).
    pub bandwidth: u32,
    /// TX datarate (baudrate for FSK, SF for LoRa).
    pub datarate: DataRate,
    /// Error-correcting code of the packet (LoRa only).
    pub coderate: CodeRate,
    /// Onvert signal polarity, for orthogonal downlinks (LoRa only).
    pub invert_pol: bool,
    /// Frequency deviation, in kHz (FSK only).
    pub f_dev: u8,
    /// Set the preamble length, 0 for default.
    pub preamble: u16,
    /// If true, do not send a CRC in the packet.
    pub no_crc: bool,
    /// Of true, enable implicit header mode (LoRa), fixed length (FSK).
    pub no_header: bool,
    /// Payload size in bytes.
    pub size: u16,
    /// Buffer containing the payload.
    pub payload: [u8; 256],
}

/// Configuration structure for the timestamp.
pub struct TimestampConfig {
    pub enable_precision_ts: bool,
    pub max_ts_metrics: u8,
    pub nb_symbols: u8,
}

/// The HAL board configuration for `conf`, as `board_setconf` hands it over.
pub fn board_conf(conf: &BoardConfig) -> (r: Result<LgwConfBoardSpidev, String>)
    requires
        !encode_utf8(conf.spidev_path@).contains(0u8),
    ensures
        encode_utf8(conf.spidev_path@).len() + 1 > 64 ==> (r matches Err(e) && e@ == "spidev_path max length is 64"@),
        encode_utf8(conf.spidev_path@).len() + 1 <= 64 ==> (r matches Ok(c) && {
            &&& c.lorawan_public == conf.lorawan_public
            &&& c.clksrc == conf.clock_source
            &&& c.full_duplex == conf.full_duplex
            &&& c_path_array(encode_utf8(conf.spidev_path@), c.spidev_path)
        }),
{
    let spidev_path = match c_path(conf.spidev_path.as_str()) {
        Some(v) => v,
        None => {
            return Err("spidev_path max length is 64".to_string());
        },
    };
    Ok(LgwConfBoardSpidev {
        lorawan_public: conf.lorawan_public,
        clksrc: conf.clock_source,
        full_duplex: conf.full_duplex,
        spidev_path,
    })
}

/// The HAL configuration of an IF chain for `conf`, as `rxif_setconf` hands it over.
pub fn rxif_conf(conf: &RxIfConfig) -> (c: LgwConfRxif)
    ensures
        c.enable == conf.enable,
        c.rf_chain == conf.rf_chain,
        c.freq_hz == conf.freq_hz,
        c.bandwidth == spec_map_bandwidth(conf.bandwidth),
        c.datarate == spec_map_data_rate(conf.datarate),
        c.sync_word_size == conf.sync_word_size,
        c.sync_word == conf.sync_word,
        c.implicit_hdr == conf.implicit_header,
        c.implicit_payload_length == conf.implicit_payload_length,
        c.implicit_crc_en == conf.implicit_crc_enable,
        c.implicit_coderate == spec_map_code_rate(conf.implicit_coderate),
{
    LgwConfRxif {
        enable: conf.enable,
        rf_chain: conf.rf_chain,
        freq_hz: conf.freq_hz,
        bandwidth: map_bandwidth(conf.bandwidth),
        datarate: map_data_rate(conf.datarate),
        sync_word_size: conf.sync_word_size,
        sync_word: conf.sync_word,
        implicit_hdr: conf.implicit_header,
        implicit_payload_length: conf.implicit_payload_length,
        implicit_crc_en: conf.implicit_crc_enable,
        implicit_coderate: map_code_rate(conf.implicit_coderate),
    }
}

/// The HAL entry for a TX gain: the same values.
pub open spec fn spec_tx_gain(g: TxGainConfig) -> LgwTxGain {
    LgwTxGain {
        rf_power: g.rf_power,
        dig_gain: g.dig_gain,
        pa_gain: g.pa_gain,
        dac_gain: g.dac_gain,
        mix_gain: g.mix_gain,
        offset_i: g.offset_i,
        offset_q: g.offset_q,
        pwr_idx: g.pwr_idx,
    }
}

/// The TX gain table for `txgain`, as `txgain_setconf` hands it over: each gain in
/// its place, zeros after them (at most the 16 entries the table has).
pub fn txgain_lut(txgain: &[TxGainConfig]) -> (r: LgwTxGainLut)
    requires
        txgain@.len() <= 16,
    ensures
        r.size == txgain@.len(),
        forall|i: int|
            0 <= i < 16 ==> #[trigger] r.lut[i] == if i < txgain@.len() {
                spec_tx_gain(txgain@[i])
            } else {
                LgwTxGain { rf_power: 0, dig_gain: 0, pa_gain: 0, dac_gain: 0, mix_gain: 0, offset_i: 0, offset_q: 0, pwr_idx: 0 }
            },
{
    let zero = LgwTxGain { rf_power: 0, dig_gain: 0, pa_gain: 0, dac_gain: 0, mix_gain: 0, offset_i: 0, offset_q: 0, pwr_idx: 0 };
    let mut lut = [zero; 16];
    let mut i: usize = 0;
    while i < txgain.len()
        invariant
            txgain@.len() <= 16,
            zero == (LgwTxGain { rf_power: 0, dig_gain: 0, pa_gain: 0, dac_gain: 0, mix_gain: 0, offset_i: 0, offset_q: 0, pwr_idx: 0 }),
            i <= txgain@.len(),
            forall|j: int| 0 <= j < i ==> #[trigger] lut[j] == spec_tx_gain(txgain@[j]),
            forall|j: int| i <= j < 16 ==> #[trigger] lut[j] == zero,
        decreases txgain@.len() - i,
    {
        let gain = &txgain[i];
        lut[i] = LgwTxGain {
            rf_power: gain.rf_power,
            dig_gain: gain.dig_gain,
            pa_gain: gain.pa_gain,
            dac_gain: gain.dac_gain,
            mix_gain: gain.mix_gain,
            offset_i: gain.offset_i,
            offset_q: gain.offset_q,
            pwr_idx: gain.pwr_idx,
        };
        i += 1;
    }
    LgwTxGainLut { lut, size: txgain.len() as u8 }
}

/// The HAL precision timestamp configuration for `conf`, as `timestamp_setconf`
/// hands it over.
pub fn timestamp_conf(conf: &TimestampConfig) -> (c: LgwConfTimestamp)
    ensures
        c.enable_precision_ts == conf.enable_precision_ts,
        c.max_ts_metrics == conf.max_ts_metrics,
        c.nb_symbols == conf.nb_symbols,
{
    LgwConfTimestamp {
        enable_precision_ts: conf.enable_precision_ts,
        max_ts_metrics: conf.max_ts_metrics,
        nb_symbols: conf.nb_symbols,
    }
}

/// The HAL value of a bandwidth in Hz.
pub open spec fn spec_map_bandwidth(bandwidth: u32) -> u8 {
    (if bandwidth == 500000 {
        BW_500KHZ
    } else if bandwidth == 250000 {
        BW_250KHZ
    } else if bandwidth == 125000 {
        BW_125KHZ
    } else {
        BW_UNDEFINED
    }) as u8
}

pub open spec fn spec_map_code_rate(coderate: CodeRate) -> u8 {
    (match coderate {
        CodeRate::Undefined => CR_UNDEFINED,
        CodeRate::LoRa4_5 => CR_LORA_4_5,
        CodeRate::LoRa4_6 => CR_LORA_4_6,
        CodeRate::LoRa4_7 => CR_LORA_4_7,
        CodeRate::LoRa4_8 => CR_LORA_4_8,
    }) as u8
}

pub open spec fn spec_map_data_rate(datarate: DataRate) -> u32 {
    match datarate {
        DataRate::Undefined => DR_UNDEFINED,
        DataRate::SF5 => DR_LORA_SF5,
        DataRate::SF6 => DR_LORA_SF6,
        DataRate::SF7 => DR_LORA_SF7,
        DataRate::SF8 => DR_LORA_SF8,
        DataRate::SF9 => DR_LORA_SF9,
        DataRate::SF10 => DR_LORA_SF10,
        DataRate::SF11 => DR_LORA_SF11,
        DataRate::SF12 => DR_LORA_SF12,
        DataRate::FSK(v) => v,
        DataRate::FSKMin => DR_FSK_MIN,
        DataRate::FSKMax => DR_FSK_MAX,
    }
}

pub open spec fn spec_map_modulation(modulation: Modulation) -> u8 {
    (match modulation {
        Modulation::Undefined => MOD_UNDEFINED,
        Modulation::LoRa => MOD_LORA,
        Modulation::FSK => MOD_FSK,
    }) as u8
}

pub open spec fn spec_map_tx_mode(tx_mode: TxMode) -> u8 {
    (match tx_mode {
        TxMode::Immediate => IMMEDIATE,
        TxMode::Timestamped => TIMESTAMPED,
        TxMode::OnGPS => ON_GPS,
    }) as u8
}

pub fn map_tx_packet(pkt: &TxPacket) -> (p: LgwPktTx)
    ensures
        p.freq_hz == pkt.freq_hz,
        p.tx_mode == spec_map_tx_mode(pkt.tx_mode),
        p.count_us == pkt.count_us,
        p.rf_chain == pkt.rf_chain,
        p.rf_power == pkt.rf_power,
        p.modulation == spec_map_modulation(pkt.modulation),
        p.freq_offset == pkt.freq_offset,
        p.bandwidth == spec_map_bandwidth(pkt.bandwidth),
        p.datarate == spec_map_data_rate(pkt.datarate),
        p.coderate == spec_map_code_rate(pkt.coderate),
        p.invert_pol == pkt.invert_pol,
        p.f_dev == pkt.f_dev,
        p.preamble == pkt.preamble,
        p.no_crc == pkt.no_crc,
        p.no_header == pkt.no_header,
        p.size == pkt.size,
        p.payload == pkt.payload,
{
    LgwPktTx {
        freq_hz: pkt.freq_hz,
        tx_mode: map_tx_mode(pkt.tx_mode),
        count_us: pkt.count_us,
        rf_chain: pkt.rf_chain,
        rf_power: pkt.rf_power,
        modulation: map_modulation(pkt.modulation),
        freq_offset: pkt.freq_offset,
        bandwidth: map_bandwidth(pkt.bandwidth),
        datarate: map_data_rate(pkt.datarate),
        coderate: map_code_rate(pkt.coderate),
        invert_pol: pkt.invert_pol,
        f_dev: pkt.f_dev,
        preamble: pkt.preamble,
        no_crc: pkt.no_crc,
        no_header: pkt.no_header,
        size: pkt.size,
        payload: pkt.payload,
    }
}

pub fn map_bandwidth(bandwidth: u32) -> (r: u8)
    ensures
        r == spec_map_bandwidth(bandwidth),
{
    (match bandwidth {
        500000 => BW_500KHZ,
        250000 => BW_250KHZ,
        125000 => BW_125KHZ,
        _ => BW_UNDEFINED,
    }) as u8
}

pub fn map_code_rate(coderate: CodeRate) -> (r: u8)
    ensures
        r == spec_map_code_rate(coderate),
{
    (match coderate {
        CodeRate::Undefined => CR_UNDEFINED,
        CodeRate::LoRa4_5 => CR_LORA_4_5,
        CodeRate::LoRa4_6 => CR_LORA_4_6,
        CodeRate::LoRa4_7 => CR_LORA_4_7,
        CodeRate::LoRa4_8 => CR_LORA_4_8,
    }) as u8
}

pub fn map_data_rate(datarate: DataRate) -> (r: u32)
    ensures
        r == spec_map_data_rate(datarate),
{
    match datarate {
        DataRate::Undefined => DR_UNDEFINED,
        DataRate::SF5 => DR_LORA_SF5,
        DataRate::SF6 => DR_LORA_SF6,
        DataRate::SF7 => DR_LORA_SF7,
        DataRate::SF8 => DR_LORA_SF8,
        DataRate::SF9 => DR_LORA_SF9,
        DataRate::SF10 => DR_LORA_SF10,
        DataRate::SF11 => DR_LORA_SF11,
        DataRate::SF12 => DR_LORA_SF12,
        DataRate::FSK(v) => v,
        DataRate::FSKMin => DR_FSK_MIN,
        DataRate::FSKMax => DR_FSK_MAX,
    }
}

/// The value that `unmap_status` gives for the HAL value `status`.
pub open spec fn spec_unmap_status(status: u8) -> CRC {
    if status as u32 == STAT_NO_CRC {
        CRC::NoCRC
    } else if status as u32 == STAT_CRC_BAD {
        CRC::BadCRC
    } else if status as u32 == STAT_CRC_OK {
        CRC::CRCOk
    } else {
        CRC::Undefined
    }
}

pub fn unmap_status(status: u8) -> (r: CRC)
    ensures
        r == spec_unmap_status(status),
{
    let s = status as u32;
    if s == STAT_NO_CRC {
        CRC::NoCRC
    } else if s == STAT_CRC_BAD {
        CRC::BadCRC
    } else if s == STAT_CRC_OK {
        CRC::CRCOk
    } else {
        CRC::Undefined
    }
}

pub fn map_modulation(modulation: Modulation) -> (r: u8)
    ensures
        r == spec_map_modulation(modulation),
{
    (match modulation {
        Modulation::Undefined => MOD_UNDEFINED,
        Modulation::LoRa => MOD_LORA,
        Modulation::FSK => MOD_FSK,
    }) as u8
}

/// The value that `unmap_modulation` gives for the HAL value `modulation`.
pub open spec fn spec_unmap_modulation(modulation: u8) -> Modulation {
    if modulation as u32 == MOD_LORA {
        Modulation::LoRa
    } else if modulation as u32 == MOD_FSK {
        Modulation::FSK
    } else {
        Modulation::Undefined
    }
}

pub fn unmap_modulation(modulation: u8) -> (r: Modulation)
    ensures
        r == spec_unmap_modulation(modulation),
{
    let m = modulation as u32;
    if m == MOD_LORA {
        Modulation::LoRa
    } else if m == MOD_FSK {
        Modulation::FSK
    } else {
        Modulation::Undefined
    }
}

/// The value that `unmap_bandwidth` gives for the HAL value `bandwidth`.
pub open spec fn spec_unmap_bandwidth(bandwidth: u8) -> u32 {
    if bandwidth as u32 == BW_500KHZ {
        500000
    } else if bandwidth as u32 == BW_250KHZ {
        250000
    } else if bandwidth as u32 == BW_125KHZ {
        125000u32
    } else {
        0u32
    }
}

pub fn unmap_bandwidth(bandwidth: u8) -> (r: u32)
    ensures
        r == spec_unmap_bandwidth(bandwidth),
{
    let b = bandwidth as u32;
    if b == BW_500KHZ {
        500000
    } else if b == BW_250KHZ {
        250000
    } else if b == BW_125KHZ {
        125000
    } else {
        0
    }
}

/// The value that `unmap_data_rate` gives for the HAL value `datarate`.
pub open spec fn spec_unmap_data_rate(datarate: u32) -> DataRate {
    if datarate == DR_UNDEFINED {
        DataRate::Undefined
    } else if datarate == DR_LORA_SF5 {
        DataRate::SF5
    } else if datarate == DR_LORA_SF6 {
        DataRate::SF6
    } else if datarate == DR_LORA_SF7 {
        DataRate::SF7
    } else if datarate == DR_LORA_SF8 {
        DataRate::SF8
    } else if datarate == DR_LORA_SF9 {
        DataRate::SF9
    } else if datarate == DR_LORA_SF10 {
        DataRate::SF10
    } else if datarate == DR_LORA_SF11 {
        DataRate::SF11
    } else if datarate == DR_LORA_SF12 {
        DataRate::SF12
    } else {
        DataRate::FSK(datarate)
    }
}

pub fn unmap_data_rate(datarate: u32) -> (r: DataRate)
    ensures
        r == spec_unmap_data_rate(datarate),
{
    if datarate == DR_UNDEFINED {
        DataRate::Undefined
    } else if datarate == DR_LORA_SF5 {
        DataRate::SF5
    } else if datarate == DR_LORA_SF6 {
        DataRate::SF6
    } else if datarate == DR_LORA_SF7 {
        DataRate::SF7
    } else if datarate == DR_LORA_SF8 {
        DataRate::SF8
    } else if datarate == DR_LORA_SF9 {
        DataRate::SF9
    } else if datarate == DR_LORA_SF10 {
        DataRate::SF10
    } else if datarate == DR_LORA_SF11 {
        DataRate::SF11
    } else if datarate == DR_LORA_SF12 {
        DataRate::SF12
    } else {
        DataRate::FSK(datarate)
    }
}

/// The value that `unmap_code_rate` gives for the HAL value `coderate`.
pub open spec fn spec_unmap_code_rate(coderate: u8) -> CodeRate {
    if coderate as u32 == CR_LORA_4_5 {
        CodeRate::LoRa4_5
    } else if coderate as u32 == CR_LORA_4_6 {
        CodeRate::LoRa4_6
    } else if coderate as u32 == CR_LORA_4_7 {
        CodeRate::LoRa4_7
    } else if coderate as u32 == CR_LORA_4_8 {
        CodeRate::LoRa4_8
    } else {
        CodeRate::Undefined
    }
}

pub fn unmap_code_rate(coderate: u8) -> (r: CodeRate)
    ensures
        r == spec_unmap_code_rate(coderate),
{
    let c = coderate as u32;
    if c == CR_LORA_4_5 {
        CodeRate::LoRa4_5
    } else if c == CR_LORA_4_6 {
        CodeRate::LoRa4_6
    } else if c == CR_LORA_4_7 {
        CodeRate::LoRa4_7
    } else if c == CR_LORA_4_8 {
        CodeRate::LoRa4_8
    } else {
        CodeRate::Undefined
    }
}

pub fn map_tx_mode(tx_mode: TxMode) -> (r: u8)
    ensures
        r == spec_map_tx_mode(tx_mode),
{
    (match tx_mode {
        TxMode::Immediate => IMMEDIATE,
        TxMode::Timestamped => TIMESTAMPED,
        TxMode::OnGPS => ON_GPS,
    }) as u8
}


/// Each value goes to the HAL as the constant of its name.
pub proof fn lemma_map_bandwidth_constants()
    ensures
        spec_map_bandwidth(500000u32) == BW_500KHZ as u8,
        spec_map_bandwidth(250000u32) == BW_250KHZ as u8,
        spec_map_bandwidth(125000u32) == BW_125KHZ as u8,
{
}

/// Each value goes to the HAL as the constant of its name.
pub proof fn lemma_map_code_rate_constants()
    ensures
        spec_map_code_rate(CodeRate::Undefined) == CR_UNDEFINED as u8,
        spec_map_code_rate(CodeRate::LoRa4_5) == CR_LORA_4_5 as u8,
        spec_map_code_rate(CodeRate::LoRa4_6) == CR_LORA_4_6 as u8,
        spec_map_code_rate(CodeRate::LoRa4_7) == CR_LORA_4_7 as u8,
        spec_map_code_rate(CodeRate::LoRa4_8) == CR_LORA_4_8 as u8,
{
}

/// Each value goes to the HAL as the constant of its name.
pub proof fn lemma_map_data_rate_constants()
    ensures
        spec_map_data_rate(DataRate::Undefined) == DR_UNDEFINED,
        spec_map_data_rate(DataRate::SF5) == DR_LORA_SF5,
        spec_map_data_rate(DataRate::SF6) == DR_LORA_SF6,
        spec_map_data_rate(DataRate::SF7) == DR_LORA_SF7,
        spec_map_data_rate(DataRate::SF8) == DR_LORA_SF8,
        spec_map_data_rate(DataRate::SF9) == DR_LORA_SF9,
        spec_map_data_rate(DataRate::SF10) == DR_LORA_SF10,
        spec_map_data_rate(DataRate::SF11) == DR_LORA_SF11,
        spec_map_data_rate(DataRate::SF12) == DR_LORA_SF12,
        spec_map_data_rate(DataRate::FSKMin) == DR_FSK_MIN,
        spec_map_data_rate(DataRate::FSKMax) == DR_FSK_MAX,
{
}

/// Each value goes to the HAL as the constant of its name.
pub proof fn lemma_map_modulation_constants()
    ensures
        spec_map_modulation(Modulation::Undefined) == MOD_UNDEFINED as u8,
        spec_map_modulation(Modulation::LoRa) == MOD_LORA as u8,
        spec_map_modulation(Modulation::FSK) == MOD_FSK as u8,
{
}

/// Each value goes to the HAL as the constant of its name.
pub proof fn lemma_map_tx_mode_constants()
    ensures
        spec_map_tx_mode(TxMode::Immediate) == IMMEDIATE as u8,
        spec_map_tx_mode(TxMode::Timestamped) == TIMESTAMPED as u8,
        spec_map_tx_mode(TxMode::OnGPS) == ON_GPS as u8,
{
}

/// Each HAL constant is read as the value of its name.
pub proof fn lemma_unmap_status_constants()
    ensures
        spec_unmap_status(STAT_NO_CRC as u8) == CRC::NoCRC,
        spec_unmap_status(STAT_CRC_BAD as u8) == CRC::BadCRC,
        spec_unmap_status(STAT_CRC_OK as u8) == CRC::CRCOk,
{
}

/// Each HAL constant is read as the value of its name.
pub proof fn lemma_unmap_modulation_constants()
    ensures
        spec_unmap_modulation(MOD_LORA as u8) == Modulation::LoRa,
        spec_unmap_modulation(MOD_FSK as u8) == Modulation::FSK,
{
}

/// Each HAL constant is read as the value of its name.
pub proof fn lemma_unmap_bandwidth_constants()
    ensures
        spec_unmap_bandwidth(BW_500KHZ as u8) == 500000,
        spec_unmap_bandwidth(BW_250KHZ as u8) == 250000,
        spec_unmap_bandwidth(BW_125KHZ as u8) == 125000u32,
{
}

/// Each HAL constant is read as the value of its name.
pub proof fn lemma_unmap_data_rate_constants()
    ensures
        spec_unmap_data_rate(DR_UNDEFINED) == DataRate::Undefined,
        spec_unmap_data_rate(DR_LORA_SF5) == DataRate::SF5,
        spec_unmap_data_rate(DR_LORA_SF6) == DataRate::SF6,
        spec_unmap_data_rate(DR_LORA_SF7) == DataRate::SF7,
        spec_unmap_data_rate(DR_LORA_SF8) == DataRate::SF8,
        spec_unmap_data_rate(DR_LORA_SF9) == DataRate::SF9,
        spec_unmap_data_rate(DR_LORA_SF10) == DataRate::SF10,
        spec_unmap_data_rate(DR_LORA_SF11) == DataRate::SF11,
        spec_unmap_data_rate(DR_LORA_SF12) == DataRate::SF12,
{
}

/// Each HAL constant is read as the value of its name.
pub proof fn lemma_unmap_code_rate_constants()
    ensures
        spec_unmap_code_rate(CR_LORA_4_5 as u8) == CodeRate::LoRa4_5,
        spec_unmap_code_rate(CR_LORA_4_6 as u8) == CodeRate::LoRa4_6,
        spec_unmap_code_rate(CR_LORA_4_7 as u8) == CodeRate::LoRa4_7,
        spec_unmap_code_rate(CR_LORA_4_8 as u8) == CodeRate::LoRa4_8,
{
}

} // verus!
