//! The bands of ETSI EN 300 220.
use vstd::prelude::*;

use super::{etsi_en_300_220_band, Band, Configuration, Regulation};
use crate::time::from_secs;

verus! {

fn band(label: &str, frequency_min: u32, frequency_max: u32, duty_cycle_permille_max: u32, tx_power_max_eirp: i8) -> (b: Band)
    ensures
        b.label@ == label@,
        b.frequency_min == frequency_min,
        b.frequency_max == frequency_max,
        b.duty_cycle_permille_max == duty_cycle_permille_max,
        b.tx_power_max_eirp == tx_power_max_eirp,
{
    Band {
        label: label.to_owned(),
        frequency_min,
        frequency_max,
        duty_cycle_permille_max,
        tx_power_max_eirp,
    }
}

/// The configuration of ETSI EN 300 220.
pub fn new() -> (c: Configuration)
    ensures
        c.is_etsi_en_300_220(),
{
    let mut bands: Vec<Band> = Vec::new();
    bands.push(band("K", 863000000, 865000000, 1, 14 + 2));
    bands.push(band("L", 865000000, 868000000, 10, 14 + 2));
    bands.push(band("M", 868000000, 868600000, 10, 14 + 2));
    bands.push(band("N", 868700000, 869200000, 1, 14 + 2));
    bands.push(band("P", 869400000, 869650000, 100, 27 + 2));
    bands.push(band("P", 869700000, 870000000, 1000, 7 + 2));
    bands.push(band("Q", 869700000, 870000000, 10, 14 + 2));
    let c = Configuration {
        regulation: Regulation::EtsiEn300220,
        bands,
        window_time: from_secs(60 * 60),
    };
    assert(forall|i: int| 0 <= i < 7 ==> {
        let (label, min, max, dc, power) = etsi_en_300_220_band(i);
        &&& (#[trigger] c.bands@[i]).label@ == label
        &&& c.bands@[i].frequency_min == min
        &&& c.bands@[i].frequency_max == max
        &&& c.bands@[i].duty_cycle_permille_max == dc
        &&& c.bands@[i].tx_power_max_eirp == power
    });
    c
}

} // verus!
