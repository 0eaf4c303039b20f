//! The device and property model: immutable snapshots produced by one
//! enumeration pass.

use vstd::prelude::*;

use crate::catalog::PropertyType;
use crate::chars::chars_eq_ci;

verus! {

/// One property instance on one device, as captured by an enumeration pass.
///
/// `min`/`max`/`step`/`default`/`caps` are the range-query answers; `current`
/// is the value read afterwards, `None` when that read failed.
/// `capabilities` is the human-readable rendering of `caps`.
#[derive(Debug, Clone)]
pub struct PropertyInfo {
    pub name: String,
    pub min: Option<i32>,
    pub max: Option<i32>,
    pub step: Option<i32>,
    pub default: Option<i32>,
    pub caps: Option<i32>,
    pub current: Option<i32>,
    pub capabilities: Option<String>,
    pub property_type: PropertyType,
}

/// One video-capture device: identity metadata, best-effort driver metadata,
/// and the two ordered property lists, one per group.
#[derive(Debug)]
pub struct DeviceInfo {
    pub name: Option<String>,
    pub device_path: Option<String>,
    pub device_description: Option<String>,
    pub manufacturer: Option<String>,
    pub driver_version: Option<String>,
    pub driver_date: Option<String>,
    pub driver_path: Option<String>,
    pub video_proc_amp_properties: Vec<PropertyInfo>,
    pub camera_control_properties: Vec<PropertyInfo>,
}

/// Driver metadata looked up through the host's device-installation
/// registry; every field is independently best-effort.
#[derive(Debug, Clone)]
pub struct DriverInfo {
    pub device_desc: Option<String>,
    pub manufacturer: Option<String>,
    pub driver_version: Option<String>,
    pub driver_date: Option<String>,
    pub driver_path: Option<String>,
}

impl Default for DriverInfo {
    /// Driver metadata with every field absent.
    fn default() -> (r: Self)
        ensures
            r.device_desc is None,
            r.manufacturer is None,
            r.driver_version is None,
            r.driver_date is None,
            r.driver_path is None,
    {
        DriverInfo {
            device_desc: None,
            manufacturer: None,
            driver_version: None,
            driver_date: None,
            driver_path: None,
        }
    }
}

/// One line of the lightweight device list: index, display name, and the
/// stable path when one was obtained.
#[derive(Debug, Clone)]
pub struct DeviceListItem {
    pub index: usize,
    pub name: String,
    pub device_path: Option<String>,
}

/// The first property in `props` whose name matches `name` up to ASCII case.
pub open spec fn first_prop_match(props: Seq<PropertyInfo>, name: Seq<char>) -> Option<
    PropertyInfo,
>
    decreases props.len(),
{
    if props.len() == 0 {
        None
    } else if chars_eq_ci(props[0].name@, name) {
        Some(props[0])
    } else {
        first_prop_match(props.drop_first(), name)
    }
}

} // verus!
