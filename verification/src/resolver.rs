//! Resolving the daemon's object handles: the wireless device the engine
//! works against and the access point that is currently active.

use vstd::prelude::*;
use vstd::string::StrSliceExecFns;

verus! {

/// NMDeviceType values indicate the type of hardware represented by a device
/// object. Types the engine does not care about map to `Unknown`.
#[derive(Clone, Copy, Debug, PartialEq, Eq, Structural)]
pub enum DeviceType {
    Wifi,
    Modem,
    Unknown,
}

impl DeviceType {
    /// The device type a raw wire value denotes.
    pub open spec fn spec_from_raw(raw: u32) -> DeviceType {
        if raw == 2 {
            DeviceType::Wifi
        } else if raw == 8 {
            DeviceType::Modem
        } else {
            DeviceType::Unknown
        }
    }

    /// Decode the raw wire value of a device-type property.
    pub fn from_raw(raw: u32) -> (r: Self)
        ensures
            r == Self::spec_from_raw(raw),
    {
        if raw == 2 {
            DeviceType::Wifi
        } else if raw == 8 {
            DeviceType::Modem
        } else {
            DeviceType::Unknown
        }
    }
}

/// One device the daemon manages: its object-path handle and its resolved
/// type. A device whose type lookup failed is reported as `Unknown` and is
/// skipped, never fatal.
pub struct Device {
    /// Remote object-path handle of the device.
    pub path: String,
    /// Resolved hardware type of the device.
    pub device_type: DeviceType,
}

/// Pick the wireless device the engine will use: the first device whose type
/// is WiFi. Devices of any other type are skipped; with no wireless device at
/// all the engine stays unavailable.
pub fn resolve_wireless_device(devices: &Vec<Device>) -> (r: Option<usize>)
    ensures
        r matches Some(i) ==> i < devices.len() && devices[i as int].device_type
            == DeviceType::Wifi && (forall|j: int|
            0 <= j < i ==> devices[j].device_type != DeviceType::Wifi),
        r is None ==> forall|j: int| 0 <= j < devices.len() ==> devices[j].device_type
            != DeviceType::Wifi,
{
    let mut i: usize = 0;
    while i < devices.len()
        invariant
            i <= devices.len(),
            forall|j: int| 0 <= j < i ==> devices[j].device_type != DeviceType::Wifi,
        decreases devices.len() - i,
    {
        if matches!(devices[i].device_type, DeviceType::Wifi) {
            return Some(i);
        }
        i = i + 1;
    }
    None
}

/// Filter the device's active-access-point property down to a real handle.
///
/// `None` in means the property read failed; the one-character root path is
/// the daemon's sentinel for "no access point active". Both yield `None`, so
/// a failed or empty lookup never aborts a snapshot rebuild.
pub fn resolve_active_access_point(path: Option<String>) -> (r: Option<String>)
    ensures
        r matches Some(p) ==> path matches Some(q) && p == q && q@.len() != 1,
        r is None <==> (path is None || (path matches Some(q) && q@.len() == 1)),
{
    match path {
        Some(p) => {
            if p.as_str().unicode_len() == 1 {
                None
            } else {
                Some(p)
            }
        },
        None => None,
    }
}

} // verus!
