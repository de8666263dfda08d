//! The bindings of the 2.4 GHz gateway HAL.
pub mod hal;
pub mod hal_c;
