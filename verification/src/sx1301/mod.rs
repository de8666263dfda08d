//! The bindings of the SX1301 concentrator HAL.
pub mod timespec;
