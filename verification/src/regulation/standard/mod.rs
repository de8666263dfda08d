//! Regulatory standards: the frequency bands with their duty-cycle and power limits.
use std::time::Duration;
use vstd::prelude::*;

use crate::error::ConcentratorError;
use crate::time::nanos;

pub mod etsi_en_300_220;

verus! {

#[allow(non_camel_case_types)]
#[derive(PartialEq, Eq, Structural, Debug, Clone, Copy)]
pub enum Standard {
    ETSI_EN_300_220,
}

impl Standard {
    /// The name of the standard, as its `Display` shows it.
    pub fn name(&self) -> (s: &'static str)
        ensures
            s@ == "ETSI_EN_300_220"@,
    {
        match self {
            Standard::ETSI_EN_300_220 => "ETSI_EN_300_220",
        }
    }
}

/// The regulation of a configuration, as the gateway protocol names it.
#[derive(PartialEq, Eq, Structural, Debug, Clone, Copy)]
pub enum Regulation {
    /// Unknown.
    RegulationUnknown,
    /// ETSI EN 300 220.
    EtsiEn300220,
}

#[derive(Hash, PartialEq, Eq, Debug)]
pub struct Band {
    pub label: String,
    pub frequency_min: u32,
    pub frequency_max: u32,
    pub duty_cycle_permille_max: u32,
    pub tx_power_max_eirp: i8,
}

impl Clone for Band {
    fn clone(&self) -> (b: Self)
        ensures
            b == *self,
    {
        Band {
            label: self.label.clone(),
            frequency_min: self.frequency_min,
            frequency_max: self.frequency_max,
            duty_cycle_permille_max: self.duty_cycle_permille_max,
            tx_power_max_eirp: self.tx_power_max_eirp,
        }
    }
}

impl Band {
    /// A transmission on `tx_freq` with `tx_power_eirp` falls in this band: the
    /// frequency is in `[frequency_min, frequency_max)` and the power is at most the
    /// band's maximum.
    pub open spec fn matches(&self, tx_freq: u32, tx_power_eirp: i8) -> bool {
        &&& self.frequency_min <= tx_freq
        &&& tx_freq < self.frequency_max
        &&& tx_power_eirp <= self.tx_power_max_eirp
    }
}

/// The index of the first of `bands` that a transmission on `tx_freq` with
/// `tx_power_eirp` falls in, if there is one.
pub open spec fn first_band(bands: Seq<Band>, tx_freq: u32, tx_power_eirp: i8) -> Option<int>
    decreases bands.len(),
{
    if bands.len() == 0 {
        None
    } else {
        match first_band(bands.drop_last(), tx_freq, tx_power_eirp) {
            Some(i) => Some(i),
            None => if bands.last().matches(tx_freq, tx_power_eirp) {
                Some(bands.len() - 1)
            } else {
                None
            },
        }
    }
}

/// `first_band` gives the first matching band: it matches, and no band before it does;
/// and it gives none exactly when no band matches.
pub proof fn lemma_first_band(bands: Seq<Band>, tx_freq: u32, tx_power_eirp: i8)
    ensures
        match first_band(bands, tx_freq, tx_power_eirp) {
            Some(i) => {
                &&& 0 <= i < bands.len()
                &&& bands[i].matches(tx_freq, tx_power_eirp)
                &&& forall|j: int| 0 <= j < i ==> !(#[trigger] bands[j]).matches(tx_freq, tx_power_eirp)
            },
            None => forall|j: int| 0 <= j < bands.len() ==> !(#[trigger] bands[j]).matches(tx_freq, tx_power_eirp),
        },
    decreases bands.len(),
{
    if bands.len() > 0 {
        let init = bands.drop_last();
        lemma_first_band(init, tx_freq, tx_power_eirp);
        assert forall|j: int| 0 <= j < init.len() implies init[j] == bands[j] by {}
    }
}

pub struct Configuration {
    pub bands: Vec<Band>,
    pub window_time: Duration,
    pub regulation: Regulation,
}

/// The bands of ETSI EN 300 220 (with the EIRP limits 2 dB above the ERP limits).
pub open spec fn etsi_en_300_220_band(i: int) -> (Seq<char>, u32, u32, u32, i8) {
    if i == 0 {
        ("K"@, 863000000, 865000000, 1, 16)
    } else if i == 1 {
        ("L"@, 865000000, 868000000, 10, 16)
    } else if i == 2 {
        ("M"@, 868000000, 868600000, 10, 16)
    } else if i == 3 {
        ("N"@, 868700000, 869200000, 1, 16)
    } else if i == 4 {
        ("P"@, 869400000, 869650000, 100, 29)
    } else if i == 5 {
        ("P"@, 869700000, 870000000, 1000, 9)
    } else {
        ("Q"@, 869700000, 870000000, 10, 16)
    }
}

impl Configuration {
    /// The configuration of ETSI EN 300 220: seven bands and a one-hour window.
    pub open spec fn is_etsi_en_300_220(&self) -> bool {
        &&& self.regulation == Regulation::EtsiEn300220
        &&& nanos(self.window_time) == 3_600_000_000_000
        &&& self.bands@.len() == 7
        &&& forall|i: int|
            0 <= i < 7 ==> {
                let (label, min, max, dc, power) = etsi_en_300_220_band(i);
                &&& (#[trigger] self.bands@[i]).label@ == label
                &&& self.bands@[i].frequency_min == min
                &&& self.bands@[i].frequency_max == max
                &&& self.bands@[i].duty_cycle_permille_max == dc
                &&& self.bands@[i].tx_power_max_eirp == power
            }
    }

    pub fn new(s: Standard) -> (c: Self)
        ensures
            c.is_etsi_en_300_220(),
    {
        match s {
            Standard::ETSI_EN_300_220 => etsi_en_300_220::new(),
        }
    }

    /// The index of the first band that a transmission on `tx_freq` with
    /// `tx_power_eirp` falls in.
    pub fn band_index(&self, tx_freq: u32, tx_power_eirp: i8) -> (r: Option<usize>)
        ensures
            match r {
                Some(k) => k < self.bands@.len() && first_band(self.bands@, tx_freq, tx_power_eirp) == Some(k as int),
                None => first_band(self.bands@, tx_freq, tx_power_eirp) is None,
            },
    {
        let mut i: usize = 0;
        while i < self.bands.len()
            invariant
                i <= self.bands@.len(),
                first_band(self.bands@.take(i as int), tx_freq, tx_power_eirp) is None,
            decreases self.bands@.len() - i,
        {
            let b = &self.bands[i];
            proof {
                assert(self.bands@.take(i + 1).drop_last() == self.bands@.take(i as int));
                assert(self.bands@.take(i + 1).last() == self.bands@[i as int]);
            }
            if b.frequency_min <= tx_freq && tx_freq < b.frequency_max && tx_power_eirp <= b.tx_power_max_eirp {
                proof {
                    lemma_first_band_prefix(self.bands@, i + 1, tx_freq, tx_power_eirp);
                }
                assert(first_band(self.bands@.take(i + 1), tx_freq, tx_power_eirp) == Some(i as int));
                return Some(i);
            }
            i += 1;
        }
        assert(self.bands@.take(self.bands@.len() as int) == self.bands@);
        None
    }

    pub fn get_band(&self, tx_freq: u32, tx_power_eirp: i8) -> (r: Result<Band, ConcentratorError>)
        ensures
            match first_band(self.bands@, tx_freq, tx_power_eirp) {
                Some(i) => r == Ok::<Band, ConcentratorError>(self.bands@[i]),
                None => r matches Err(ConcentratorError::BandNotFound(f, p)) && f == tx_freq && p == tx_power_eirp,
            },
    {
        proof {
            lemma_first_band(self.bands@, tx_freq, tx_power_eirp);
        }
        match self.band_index(tx_freq, tx_power_eirp) {
            Some(i) => {
                let b = self.bands[i].clone();
                assert(b == self.bands@[i as int]);
                Ok(b)
            },
            None => Err(ConcentratorError::BandNotFound(tx_freq, tx_power_eirp)),
        }
    }

    pub fn get_regulation(&self) -> (r: Regulation)
        ensures
            r == self.regulation,
    {
        self.regulation
    }
}

/// When the first match among the first `n` bands exists, it is the first match of all.
pub proof fn lemma_first_band_prefix(bands: Seq<Band>, n: int, tx_freq: u32, tx_power_eirp: i8)
    requires
        0 <= n <= bands.len(),
        first_band(bands.take(n), tx_freq, tx_power_eirp) is Some,
    ensures
        first_band(bands, tx_freq, tx_power_eirp) == first_band(bands.take(n), tx_freq, tx_power_eirp),
    decreases bands.len(),
{
    if n < bands.len() {
        assert(bands.drop_last().take(n) == bands.take(n));
        lemma_first_band_prefix(bands.drop_last(), n, tx_freq, tx_power_eirp);
    } else {
        assert(bands.take(n) == bands);
    }
}

pub fn get(s: Standard) -> (c: Configuration)
    ensures
        c.is_etsi_en_300_220(),
{
    match s {
        Standard::ETSI_EN_300_220 => etsi_en_300_220::new(),
    }
}

} // verus!
