//! The acknowledgement status that the gateway reports for a downlink.
use vstd::prelude::*;

verus! {

/// Why a downlink was or was not transmitted (the values of the gateway
/// acknowledgement status of the ChirpStack gateway protocol, in its order).
#[derive(PartialEq, Eq, Structural, Copy, Clone, Debug)]
pub enum TxAckStatus {
    /// Ignored (the default value).
    Ignored,
    /// Packet has been programmed for downlink (the protocol's `OK`).
    Programmed,
    /// Rejected because it was already too late to program this packet for downlink.
    TooLate,
    /// Rejected because the downlink packet timestamp is too much in advance.
    TooEarly,
    /// Rejected because there was already a packet programmed in requested timeframe.
    CollisionPacket,
    /// Rejected because there was already a beacon planned in requested timeframe.
    CollisionBeacon,
    /// Rejected because requested frequency is not supported by TX RF chain.
    TxFreq,
    /// Rejected because requested power is not supported by gateway.
    TxPower,
    /// Rejected because GPS is unlocked, so GPS timestamp cannot be used.
    GpsUnlocked,
    /// Downlink queue is full.
    QueueFull,
    /// Internal error.
    InternalError,
    /// The frame went over the duty-cycle limit.
    DutyCycleOverflow,
}


impl TxAckStatus {
    /// The number of the status in the gateway protocol.
    pub open spec fn spec_code(&self) -> u32 {
        match self {
            TxAckStatus::Ignored => 0,
            TxAckStatus::Programmed => 1,
            TxAckStatus::TooLate => 2,
            TxAckStatus::TooEarly => 3,
            TxAckStatus::CollisionPacket => 4,
            TxAckStatus::CollisionBeacon => 5,
            TxAckStatus::TxFreq => 6,
            TxAckStatus::TxPower => 7,
            TxAckStatus::GpsUnlocked => 8,
            TxAckStatus::QueueFull => 9,
            TxAckStatus::InternalError => 10,
            TxAckStatus::DutyCycleOverflow => 11,
        }
    }

    /// The number of the status in the gateway protocol.
    pub fn code(&self) -> (c: u32)
        ensures
            c == self.spec_code(),
    {
        match self {
            TxAckStatus::Ignored => 0,
            TxAckStatus::Programmed => 1,
            TxAckStatus::TooLate => 2,
            TxAckStatus::TooEarly => 3,
            TxAckStatus::CollisionPacket => 4,
            TxAckStatus::CollisionBeacon => 5,
            TxAckStatus::TxFreq => 6,
            TxAckStatus::TxPower => 7,
            TxAckStatus::GpsUnlocked => 8,
            TxAckStatus::QueueFull => 9,
            TxAckStatus::InternalError => 10,
            TxAckStatus::DutyCycleOverflow => 11,
        }
    }
}

} // verus!
