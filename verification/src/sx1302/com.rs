//! The communication interface of the SX1302 concentrator.
use vstd::prelude::*;

use super::hal_c::{LGW_COM_SPI, LGW_COM_UNKNOWN, LGW_COM_USB};

verus! {

/// Communication type.
#[derive(Debug, PartialEq, Eq, Structural)]
pub enum ComType {
    Spi,
    Usb,
    Unknown,
}

impl ComType {
    pub open spec fn spec_to_hal(&self) -> u32 {
        match self {
            ComType::Spi => LGW_COM_SPI,
            ComType::Usb => LGW_COM_USB,
            ComType::Unknown => LGW_COM_UNKNOWN,
        }
    }

    pub fn to_hal(&self) -> (r: u32)
        ensures
            r == self.spec_to_hal(),
    {
        match self {
            ComType::Spi => LGW_COM_SPI,
            ComType::Usb => LGW_COM_USB,
            ComType::Unknown => LGW_COM_UNKNOWN,
        }
    }
}


/// Each value goes to the HAL as the constant of its name.
pub proof fn lemma_com_type_to_hal_constants()
    ensures
        ComType::Spi.spec_to_hal() == LGW_COM_SPI,
        ComType::Usb.spec_to_hal() == LGW_COM_USB,
        ComType::Unknown.spec_to_hal() == LGW_COM_UNKNOWN,
{
}

} // verus!
