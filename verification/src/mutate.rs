//! Planning property writes.
//!
//! A mutation is an independent locate-validate-plan transaction over an
//! already-enumerated `DeviceInfo`: validate the property name, parse the
//! value string, locate the property in the device's lists (image-processing
//! group first), validate the value against the range captured at
//! enumeration time, and emit a `SetRequest`. The request names the device
//! by its stable path; the unverified shell re-resolves a live handle from
//! that path and issues the provider's set call, because live handles are
//! never cached across calls.

use vstd::prelude::*;

use crate::catalog::{
    auto_flag, auto_flag_spec, cc_from_name, cc_from_name_spec, cc_id_spec, manual_flag,
    manual_flag_spec, vpa_from_name, vpa_from_name_spec, vpa_id_spec, PropertyType,
};
use crate::chars::{all_alnum_chars, check_alnum_chars, str_eq_ci};
use crate::codec::{parse_property_value, parse_value_spec};
use crate::error::CamError;
use crate::model::{first_prop_match, DeviceInfo, PropertyInfo};

verus! {

/// One planned property write, ready for the shell to execute: which device
/// (by stable path), which group interface, which property identifier, and
/// the value and group-specific mode flags to hand to the provider.
#[derive(Debug, Clone, PartialEq, Eq)]
pub struct SetRequest {
    pub device_path: String,
    pub property_name: String,
    pub property_type: PropertyType,
    pub property_id: i32,
    pub value: i32,
    pub flags: i32,
}

/// The mathematical shape of a `SetRequest`.
pub ghost struct SetRequestSpec {
    pub device_path: Seq<char>,
    pub property_name: Seq<char>,
    pub property_type: PropertyType,
    pub property_id: int,
    pub value: int,
    pub flags: int,
}

impl View for SetRequest {
    type V = SetRequestSpec;

    open spec fn view(&self) -> SetRequestSpec {
        SetRequestSpec {
            device_path: self.device_path@,
            property_name: self.property_name@,
            property_type: self.property_type,
            property_id: self.property_id as int,
            value: self.value as int,
            flags: self.flags as int,
        }
    }
}

/// A planning result with the request reduced to its mathematical shape.
pub open spec fn plan_view(r: Result<SetRequest, CamError>) -> Result<SetRequestSpec, CamError> {
    match r {
        Ok(q) => Ok(q@),
        Err(e) => Err(e),
    }
}

/// A property name is at most 64 characters, all ASCII alphanumeric.
pub open spec fn valid_property_name(name: Seq<char>) -> bool {
    name.len() <= 64 && all_alnum_chars(name)
}

/// Where a name matches on a device: the first match in the image-processing
/// list, then the first match in the mechanical/optical list, both up to
/// ASCII case. The group is the list the match came from.
pub open spec fn located_property(device: DeviceInfo, name: Seq<char>) -> Option<
    (PropertyInfo, PropertyType),
> {
    match first_prop_match(device.video_proc_amp_properties@, name) {
        Some(p) => Some((p, PropertyType::VideoProcAmp)),
        None => match first_prop_match(device.camera_control_properties@, name) {
            Some(p) => Some((p, PropertyType::CameraControl)),
            None => None,
        },
    }
}

/// The catalog identifier `name` resolves to within the group, up to ASCII
/// case.
pub open spec fn catalog_lookup_spec(group: PropertyType, name: Seq<char>) -> Option<int> {
    match group {
        PropertyType::VideoProcAmp => match vpa_from_name_spec(name) {
            Some(p) => Some(vpa_id_spec(p)),
            None => None,
        },
        PropertyType::CameraControl => match cc_from_name_spec(name) {
            Some(p) => Some(cc_id_spec(p)),
            None => None,
        },
    }
}

/// Plans the write of an already-parsed value: locate the property, validate
/// the range unless automatic mode was requested, resolve the catalog
/// identifier, and name the device by its stable path.
pub open spec fn plan_set_spec(
    device: DeviceInfo,
    name: Seq<char>,
    value: i32,
    auto: bool,
) -> Result<SetRequestSpec, CamError> {
    match located_property(device, name) {
        None => Err(CamError::PropertyNotFound),
        Some((p, group)) => {
            if !auto && p.min is Some && p.max is Some && (value < p.min->0 || value > p.max->0) {
                Err(CamError::OutOfRange { value, min: p.min->0, max: p.max->0 })
            } else {
                match catalog_lookup_spec(group, name) {
                    None => Err(CamError::UnknownProperty),
                    Some(id) => match device.device_path {
                        None => Err(CamError::DeviceNotFound),
                        Some(path) => Ok(
                            SetRequestSpec {
                                device_path: path@,
                                property_name: p.name@,
                                property_type: group,
                                property_id: id,
                                value: value as int,
                                flags: (if auto {
                                    auto_flag_spec(group)
                                } else {
                                    manual_flag_spec(group)
                                }) as int,
                            },
                        ),
                    },
                }
            }
        },
    }
}

/// What `set_property` returns: name validation, then value parsing, then
/// the write plan.
pub open spec fn set_property_spec(device: DeviceInfo, name: Seq<char>, value_str: Seq<char>) -> Result<
    SetRequestSpec,
    CamError,
> {
    if !valid_property_name(name) {
        Err(CamError::InvalidPropertyName)
    } else {
        match parse_value_spec(name, value_str) {
            Err(e) => Err(e),
            Ok((v, auto)) => plan_set_spec(device, name, v, auto),
        }
    }
}

/// What `set_property_to_default` returns: the same plan fed with the
/// property's cached default value in manual mode.
pub open spec fn set_default_spec(device: DeviceInfo, name: Seq<char>) -> Result<
    SetRequestSpec,
    CamError,
> {
    if !valid_property_name(name) {
        Err(CamError::InvalidPropertyName)
    } else {
        match located_property(device, name) {
            None => Err(CamError::PropertyNotFound),
            Some((p, _)) => match p.default {
                None => Err(CamError::InvalidValue),
                Some(d) => plan_set_spec(device, name, d, false),
            },
        }
    }
}

/// The index of the first property in `props` whose name matches `name` up
/// to ASCII case.
fn find_prop_index(props: &Vec<PropertyInfo>, name: &str) -> (r: Option<usize>)
    ensures
        match r {
            Some(k) => 0 <= k < props@.len() && first_prop_match(props@, name@) == Some(
                props@[k as int],
            ),
            None => first_prop_match(props@, name@) is None,
        },
{
    let mut k: usize = 0;
    proof {
        assert(props@.skip(0) =~= props@);
    }
    while k < props.len()
        invariant
            0 <= k <= props@.len(),
            first_prop_match(props@.skip(k as int), name@) == first_prop_match(props@, name@),
        decreases props@.len() - k,
    {
        let ghost rest = props@.skip(k as int);
        if str_eq_ci(props[k].name.as_str(), name) {
            proof {
                assert(rest[0] == props@[k as int]);
            }
            return Some(k);
        }
        proof {
            assert(rest.drop_first() =~= props@.skip(k + 1));
        }
        k = k + 1;
    }
    None
}

/// Resolves the catalog identifier of `name` within the group, up to ASCII
/// case.
fn catalog_lookup(group: PropertyType, name: &str) -> (r: Option<i32>)
    ensures
        match r {
            Some(id) => catalog_lookup_spec(group, name@) == Some(id as int),
            None => catalog_lookup_spec(group, name@) is None,
        },
{
    match group {
        PropertyType::VideoProcAmp => match vpa_from_name(name) {
            Some(p) => Some(p.id()),
            None => None,
        },
        PropertyType::CameraControl => match cc_from_name(name) {
            Some(p) => Some(p.id()),
            None => None,
        },
    }
}

/// Plans the write of `value_str` to the named property of `device`.
///
/// Validates the property name, parses the value (labels, "auto", or a
/// decimal numeral), locates the property in the device's cached lists,
/// validates the value against the cached range unless automatic mode was
/// requested, and emits the request the shell must issue. No live handle is
/// touched here; the request names the device by its stable path.
pub fn set_property(device: &DeviceInfo, property_name: &str, value_str: &str) -> (r: Result<
    SetRequest,
    CamError,
>)
    ensures
        plan_view(r) == set_property_spec(*device, property_name@, value_str@),
{
    if property_name.unicode_len() > 64 || !check_alnum_chars(property_name) {
        return Err(CamError::InvalidPropertyName);
    }
    let parsed = parse_property_value(property_name, value_str)?;
    let (value, auto) = parsed;
    plan_set(device, property_name, value, auto)
}

/// Plans resetting the named property of `device` to its cached default, in
/// manual mode.
pub fn set_property_to_default(device: &DeviceInfo, property_name: &str) -> (r: Result<
    SetRequest,
    CamError,
>)
    ensures
        plan_view(r) == set_default_spec(*device, property_name@),
{
    if property_name.unicode_len() > 64 || !check_alnum_chars(property_name) {
        return Err(CamError::InvalidPropertyName);
    }
    let in_vpa = find_prop_index(&device.video_proc_amp_properties, property_name);
    let default: Option<i32> = match in_vpa {
        Some(k) => device.video_proc_amp_properties[k].default,
        None => match find_prop_index(&device.camera_control_properties, property_name) {
            Some(k) => device.camera_control_properties[k].default,
            None => {
                return Err(CamError::PropertyNotFound);
            },
        },
    };
    match default {
        None => Err(CamError::InvalidValue),
        Some(d) => plan_set(device, property_name, d, false),
    }
}

/// Plans the write of an already-parsed value.
fn plan_set(device: &DeviceInfo, property_name: &str, value: i32, auto: bool) -> (r: Result<
    SetRequest,
    CamError,
>)
    ensures
        plan_view(r) == plan_set_spec(*device, property_name@, value, auto),
{
    let in_vpa = find_prop_index(&device.video_proc_amp_properties, property_name);
    let (k, group, in_first) = match in_vpa {
        Some(k) => (k, PropertyType::VideoProcAmp, true),
        None => match find_prop_index(&device.camera_control_properties, property_name) {
            Some(k) => (k, PropertyType::CameraControl, false),
            None => {
                return Err(CamError::PropertyNotFound);
            },
        },
    };
    let p: &PropertyInfo = if in_first {
        &device.video_proc_amp_properties[k]
    } else {
        &device.camera_control_properties[k]
    };
    if !auto {
        match (p.min, p.max) {
            (Some(mn), Some(mx)) => {
                if value < mn || value > mx {
                    return Err(CamError::OutOfRange { value, min: mn, max: mx });
                }
            },
            _ => {},
        }
    }
    let id = match catalog_lookup(group, property_name) {
        Some(id) => id,
        None => {
            return Err(CamError::UnknownProperty);
        },
    };
    let path: String = match &device.device_path {
        Some(path) => path.clone(),
        None => {
            return Err(CamError::DeviceNotFound);
        },
    };
    let flags = if auto {
        auto_flag(group)
    } else {
        manual_flag(group)
    };
    Ok(
        SetRequest {
            device_path: path,
            property_name: p.name.clone(),
            property_type: group,
            property_id: id,
            value,
            flags,
        },
    )
}

/// Plans resetting every property of `device` — both groups, in list order —
/// to its cached default.
///
/// One entry per property: its name and its own plan. Entries are
/// independent; a property whose plan fails does not disturb the entries of
/// the others.
pub fn reset_all_properties(device: &DeviceInfo) -> (r: Vec<(String, Result<SetRequest, CamError>)>)
    ensures
        r@.len() == device.video_proc_amp_properties@.len()
            + device.camera_control_properties@.len(),
        forall|j: int|
            0 <= j < r@.len() ==> {
                let all = device.video_proc_amp_properties@ + device.camera_control_properties@;
                (#[trigger] r@[j]).0@ == all[j].name@ && plan_view(r@[j].1) == set_default_spec(
                    *device,
                    all[j].name@,
                )
            },
{
    let ghost all = device.video_proc_amp_properties@ + device.camera_control_properties@;
    let mut out: Vec<(String, Result<SetRequest, CamError>)> = Vec::new();
    let n1 = device.video_proc_amp_properties.len();
    let mut k: usize = 0;
    while k < n1
        invariant
            n1 == device.video_proc_amp_properties@.len(),
            all == device.video_proc_amp_properties@ + device.camera_control_properties@,
            0 <= k <= n1,
            out@.len() == k,
            forall|j: int|
                0 <= j < k ==> (#[trigger] out@[j]).0@ == all[j].name@ && plan_view(out@[j].1)
                    == set_default_spec(*device, all[j].name@),
        decreases n1 - k,
    {
        let name = device.video_proc_amp_properties[k].name.clone();
        let plan = set_property_to_default(device, name.as_str());
        proof {
            assert(all[k as int] == device.video_proc_amp_properties@[k as int]);
        }
        out.push((name, plan));
        k = k + 1;
    }
    let n2 = device.camera_control_properties.len();
    let mut m: usize = 0;
    while m < n2
        invariant
            n1 == device.video_proc_amp_properties@.len(),
            n2 == device.camera_control_properties@.len(),
            all == device.video_proc_amp_properties@ + device.camera_control_properties@,
            0 <= m <= n2,
            out@.len() == n1 + m,
            forall|j: int|
                0 <= j < n1 + m ==> (#[trigger] out@[j]).0@ == all[j].name@ && plan_view(out@[j].1)
                    == set_default_spec(*device, all[j].name@),
        decreases n2 - m,
    {
        let name = device.camera_control_properties[m].name.clone();
        let plan = set_property_to_default(device, name.as_str());
        proof {
            assert(all[n1 + m] == device.camera_control_properties@[m as int]);
        }
        out.push((name, plan));
        m = m + 1;
    }
    out
}

} // verus!
