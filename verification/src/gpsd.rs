//! The gpsd client's choice of device: the first u-blox receiver that gpsd lists
//! gets the command that enables its UBX-NAV-TIMEGPS messages.
use vstd::prelude::*;
use vstd::string::*;

verus! {

/// A device as gpsd lists it in its `DEVICES` response.
pub struct GpsdDevice {
    pub path: String,
    pub driver: Option<String>,
}

/// The driver name gpsd gives u-blox receivers.
pub open spec fn ublox_driver() -> Seq<char> {
    "u-blox"@
}

/// The device is a u-blox receiver.
pub open spec fn is_ublox(d: GpsdDevice) -> bool {
    d.driver matches Some(name) && name@ == ublox_driver()
}

/// The raw command that makes the receiver at `path` send UBX-NAV-TIMEGPS on every
/// solution (a UBX-CFG-MSG message, in hexadecimal, through gpsd).
pub open spec fn nav_time_gps_command(path: Seq<char>) -> Seq<char> {
    "&"@ + path + "=b5620601080001200001010000003294\r\n"@
}

/// The index of the first u-blox receiver of `devices`, if there is one.
pub open spec fn first_ublox(devices: Seq<GpsdDevice>) -> Option<int>
    decreases devices.len(),
{
    if devices.len() == 0 {
        None
    } else {
        match first_ublox(devices.drop_last()) {
            Some(i) => Some(i),
            None => if is_ublox(devices.last()) {
                Some(devices.len() - 1)
            } else {
                None
            },
        }
    }
}

/// The first u-blox receiver is one, and no device before it is.
pub proof fn lemma_first_ublox(devices: Seq<GpsdDevice>)
    ensures
        match first_ublox(devices) {
            Some(i) => 0 <= i < devices.len() && is_ublox(devices[i]) && forall|j: int|
                0 <= j < i ==> !is_ublox(#[trigger] devices[j]),
            None => forall|j: int| 0 <= j < devices.len() ==> !is_ublox(#[trigger] devices[j]),
        },
    decreases devices.len(),
{
    if devices.len() > 0 {
        let init = devices.drop_last();
        lemma_first_ublox(init);
        assert forall|j: int| 0 <= j < init.len() implies init[j] == devices[j] by {}
    }
}

/// The command for the first u-blox receiver that gpsd lists, if it lists one.
pub fn ublox_config_command(devices: &Vec<GpsdDevice>) -> (r: Option<String>)
    ensures
        match first_ublox(devices@) {
            Some(i) => r matches Some(c) && c@ == nav_time_gps_command(devices@[i].path@),
            None => r is None,
        },
{
    proof {
        lemma_first_ublox(devices@);
    }
    let ublox = String::from_str("u-blox");
    let mut i: usize = 0;
    while i < devices.len()
        invariant
            ublox@ == ublox_driver(),
            i <= devices@.len(),
            forall|j: int| 0 <= j < i ==> !is_ublox(#[trigger] devices@[j]),
            match first_ublox(devices@) {
                Some(k) => 0 <= k < devices@.len() && is_ublox(devices@[k]) && forall|j: int|
                    0 <= j < k ==> !is_ublox(#[trigger] devices@[j]),
                None => forall|j: int| 0 <= j < devices@.len() ==> !is_ublox(#[trigger] devices@[j]),
            },
        decreases devices@.len() - i,
    {
        let device = &devices[i];
        if let Some(driver) = &device.driver {
            if *driver == ublox {
                let command = String::from_str("&").concat(device.path.as_str()).concat(
                    "=b5620601080001200001010000003294\r\n",
                );
                return Some(command);
            }
        }
        i += 1;
    }
    None
}

} // verus!
