//! The bindings of the SX1302 concentrator HAL.
pub mod com;
pub mod gps;
pub mod hal;
pub mod hal_c;
pub mod legacy_hal;
