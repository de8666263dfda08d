//! The GNSS types of the SX1302 concentrator HAL.
use vstd::prelude::*;

use crate::text::{decimal, write_decimal};
use vstd::string::*;

use super::hal_c::{
    GPS_MSG_IGNORED, GPS_MSG_INCOMPLETE, GPS_MSG_INVALID, GPS_MSG_NMEA_GBS, GPS_MSG_NMEA_GGA,
    GPS_MSG_NMEA_GLL, GPS_MSG_NMEA_GNS, GPS_MSG_NMEA_GSA, GPS_MSG_NMEA_GST, GPS_MSG_NMEA_GSV,
    GPS_MSG_NMEA_RMC, GPS_MSG_NMEA_TXT, GPS_MSG_NMEA_VTG, GPS_MSG_NMEA_ZDA, GPS_MSG_UBX_NAV_TIMEGPS,
    GPS_MSG_UBX_NAV_TIMEUTC, GPS_MSG_UNKNOWN,
};

verus! {

/// GPS family types.
#[derive(Debug, PartialEq, Eq, Structural)]
pub enum GPSFamily {
    UBX7,
}

/// Type of GPS (and other GNSS) sentences.
#[allow(non_camel_case_types)]
#[derive(Debug, PartialEq, Eq, Structural)]
pub enum MessageType {
    /// neutral value
    Unknown,
    /// frame was not parsed by the system
    Ignored,
    /// system try to parse frame but failed
    Invalid,
    /// frame parsed was missing bytes
    Incomplete,
    /// Recommended Minimum data (time + date)
    NMEA_RMC,
    /// Global positioning system fix data (pos + alt)
    NMEA_GGA,
    /// GNSS fix data (pos + alt, sat number)
    NMEA_GNS,
    /// Time and Date
    NMEA_ZDA,
    /// GNSS Satellite Fault Detection
    NMEA_GBS,
    /// GNSS Pseudo Range Error Statistics
    NMEA_GST,
    /// GNSS DOP and Active Satellites (sat number)
    NMEA_GSA,
    /// GNSS Satellites in View (sat SNR)
    NMEA_GSV,
    /// Latitude and longitude, with time fix and status
    NMEA_GLL,
    /// Text Transmission
    NMEA_TXT,
    /// Course over ground and Ground speed
    NMEA_VTG,
    /// GPS Time Solution
    UBX_NAV_TIMEGPS,
    /// UTC Time Solution
    UBX_NAV_TIMEUTC,
}

/// The text `unexpected gps message type: ` and the decimal digits of `msg`.
fn unexpected_message_type(msg: u32) -> (s: String)
    ensures
        s@ == "unexpected gps message type: "@ + decimal(msg as nat),
{
    let mut out = String::from_str("unexpected gps message type: ");
    write_decimal(&mut out, msg as u64);
    out
}

impl MessageType {
    /// The message type of a HAL value, if it names one.
    pub open spec fn spec_from_hal(msg: u32) -> Option<MessageType> {
        if msg == GPS_MSG_UNKNOWN {
            Some(MessageType::Unknown)
        } else if msg == GPS_MSG_IGNORED {
            Some(MessageType::Ignored)
        } else if msg == GPS_MSG_INVALID {
            Some(MessageType::Invalid)
        } else if msg == GPS_MSG_INCOMPLETE {
            Some(MessageType::Incomplete)
        } else if msg == GPS_MSG_NMEA_RMC {
            Some(MessageType::NMEA_RMC)
        } else if msg == GPS_MSG_NMEA_GGA {
            Some(MessageType::NMEA_GGA)
        } else if msg == GPS_MSG_NMEA_GNS {
            Some(MessageType::NMEA_GNS)
        } else if msg == GPS_MSG_NMEA_ZDA {
            Some(MessageType::NMEA_ZDA)
        } else if msg == GPS_MSG_NMEA_GBS {
            Some(MessageType::NMEA_GBS)
        } else if msg == GPS_MSG_NMEA_GST {
            Some(MessageType::NMEA_GST)
        } else if msg == GPS_MSG_NMEA_GSA {
            Some(MessageType::NMEA_GSA)
        } else if msg == GPS_MSG_NMEA_GSV {
            Some(MessageType::NMEA_GSV)
        } else if msg == GPS_MSG_NMEA_GLL {
            Some(MessageType::NMEA_GLL)
        } else if msg == GPS_MSG_NMEA_TXT {
            Some(MessageType::NMEA_TXT)
        } else if msg == GPS_MSG_NMEA_VTG {
            Some(MessageType::NMEA_VTG)
        } else if msg == GPS_MSG_UBX_NAV_TIMEGPS {
            Some(MessageType::UBX_NAV_TIMEGPS)
        } else if msg == GPS_MSG_UBX_NAV_TIMEUTC {
            Some(MessageType::UBX_NAV_TIMEUTC)
        } else {
            None
        }
    }

    pub fn from_hal(msg: u32) -> (r: Result<Self, String>)
        ensures
            match Self::spec_from_hal(msg) {
                Some(t) => r == Ok::<MessageType, String>(t),
                None => r matches Err(e) && e@ == "unexpected gps message type: "@ + decimal(msg as nat),
            },
    {
        Ok(
            if msg == GPS_MSG_UNKNOWN {
                MessageType::Unknown
            } else if msg == GPS_MSG_IGNORED {
                MessageType::Ignored
            } else if msg == GPS_MSG_INVALID {
                MessageType::Invalid
            } else if msg == GPS_MSG_INCOMPLETE {
                MessageType::Incomplete
            } else if msg == GPS_MSG_NMEA_RMC {
                MessageType::NMEA_RMC
            } else if msg == GPS_MSG_NMEA_GGA {
                MessageType::NMEA_GGA
            } else if msg == GPS_MSG_NMEA_GNS {
                MessageType::NMEA_GNS
            } else if msg == GPS_MSG_NMEA_ZDA {
                MessageType::NMEA_ZDA
            } else if msg == GPS_MSG_NMEA_GBS {
                MessageType::NMEA_GBS
            } else if msg == GPS_MSG_NMEA_GST {
                MessageType::NMEA_GST
            } else if msg == GPS_MSG_NMEA_GSA {
                MessageType::NMEA_GSA
            } else if msg == GPS_MSG_NMEA_GSV {
                MessageType::NMEA_GSV
            } else if msg == GPS_MSG_NMEA_GLL {
                MessageType::NMEA_GLL
            } else if msg == GPS_MSG_NMEA_TXT {
                MessageType::NMEA_TXT
            } else if msg == GPS_MSG_NMEA_VTG {
                MessageType::NMEA_VTG
            } else if msg == GPS_MSG_UBX_NAV_TIMEGPS {
                MessageType::UBX_NAV_TIMEGPS
            } else if msg == GPS_MSG_UBX_NAV_TIMEUTC {
                MessageType::UBX_NAV_TIMEUTC
            } else {
                return Err(unexpected_message_type(msg));
            },
        )
    }
}


/// Each HAL constant is read as the value of its name.
pub proof fn lemma_message_type_from_hal_constants()
    ensures
        MessageType::spec_from_hal(GPS_MSG_UNKNOWN) == Some(MessageType::Unknown),
        MessageType::spec_from_hal(GPS_MSG_IGNORED) == Some(MessageType::Ignored),
        MessageType::spec_from_hal(GPS_MSG_INVALID) == Some(MessageType::Invalid),
        MessageType::spec_from_hal(GPS_MSG_INCOMPLETE) == Some(MessageType::Incomplete),
        MessageType::spec_from_hal(GPS_MSG_NMEA_RMC) == Some(MessageType::NMEA_RMC),
        MessageType::spec_from_hal(GPS_MSG_NMEA_GGA) == Some(MessageType::NMEA_GGA),
        MessageType::spec_from_hal(GPS_MSG_NMEA_GNS) == Some(MessageType::NMEA_GNS),
        MessageType::spec_from_hal(GPS_MSG_NMEA_ZDA) == Some(MessageType::NMEA_ZDA),
        MessageType::spec_from_hal(GPS_MSG_NMEA_GBS) == Some(MessageType::NMEA_GBS),
        MessageType::spec_from_hal(GPS_MSG_NMEA_GST) == Some(MessageType::NMEA_GST),
        MessageType::spec_from_hal(GPS_MSG_NMEA_GSA) == Some(MessageType::NMEA_GSA),
        MessageType::spec_from_hal(GPS_MSG_NMEA_GSV) == Some(MessageType::NMEA_GSV),
        MessageType::spec_from_hal(GPS_MSG_NMEA_GLL) == Some(MessageType::NMEA_GLL),
        MessageType::spec_from_hal(GPS_MSG_NMEA_TXT) == Some(MessageType::NMEA_TXT),
        MessageType::spec_from_hal(GPS_MSG_NMEA_VTG) == Some(MessageType::NMEA_VTG),
        MessageType::spec_from_hal(GPS_MSG_UBX_NAV_TIMEGPS) == Some(MessageType::UBX_NAV_TIMEGPS),
        MessageType::spec_from_hal(GPS_MSG_UBX_NAV_TIMEUTC) == Some(MessageType::UBX_NAV_TIMEUTC),
{
}

} // verus!
