//! Turning enumeration results into display-ready records: every numeric
//! value formatted through the codec, every absent field kept absent.

use vstd::prelude::*;

use crate::codec::{
    format_property_value, format_value_spec, supported_values_display, supported_values_spec,
};
use crate::model::{DeviceInfo, PropertyInfo};

verus! {

/// One property, display-ready: the formatted current value, the formatted
/// default, and the supported-values rendering. A field is `None` when the
/// data behind it was never obtained.
#[derive(Debug, Clone)]
pub struct PropertyOutput {
    pub value: Option<String>,
    pub default: Option<String>,
    pub supported_values: Option<String>,
}

/// A device's identity and driver metadata, display-ready.
#[derive(Debug, Clone)]
pub struct DeviceInfoOutput {
    pub device_path: Option<String>,
    pub manufacturer: Option<String>,
    pub device_description: Option<String>,
    pub driver_version: Option<String>,
    pub driver_date: Option<String>,
    pub driver_path: Option<String>,
}

/// One device, display-ready: its index in the enumeration, its display
/// name, its metadata, and one display record per property, both groups in
/// list order.
#[derive(Debug, Clone)]
pub struct DeviceOutput {
    pub index: usize,
    pub name: String,
    pub device_info: DeviceInfoOutput,
    pub properties: Vec<(String, PropertyOutput)>,
}

/// The caps value used for rendering: the reported flags, `0` when the
/// report is absent.
pub open spec fn caps_or_zero(caps: Option<i32>) -> i32 {
    match caps {
        Some(c) => c,
        None => 0,
    }
}

/// `o` is the display record of property `p`: current and default formatted
/// through the codec, supported values rendered from the reported range and
/// flags, absent data kept absent.
pub open spec fn prop_output_matches(p: PropertyInfo, o: PropertyOutput) -> bool {
    &&& (match (p.current, o.value) {
        (Some(v), Some(s)) => s@ == format_value_spec(p.name@, v as int),
        (None, None) => true,
        _ => false,
    })
    &&& (match (p.default, o.default) {
        (Some(d), Some(s)) => s@ == format_value_spec(p.name@, d as int),
        (None, None) => true,
        _ => false,
    })
    &&& (match o.supported_values {
        Some(s) => p.min matches Some(mn) && p.max matches Some(mx) && s@
            == supported_values_spec(p.name@, mn as int, mx as int, caps_or_zero(p.caps)),
        None => p.min is None || p.max is None,
    })
}

/// Two optional strings hold the same text, or are both absent.
pub open spec fn opt_text_eq(a: Option<String>, b: Option<String>) -> bool {
    match (a, b) {
        (Some(x), Some(y)) => x@ == y@,
        (None, None) => true,
        _ => false,
    }
}

/// The display record of one property.
fn make_prop_output(p: &PropertyInfo) -> (o: PropertyOutput)
    ensures
        prop_output_matches(*p, o),
{
    let value: Option<String> = match p.current {
        Some(v) => Some(format_property_value(p.name.as_str(), v)),
        None => None,
    };
    let default: Option<String> = match p.default {
        Some(d) => Some(format_property_value(p.name.as_str(), d)),
        None => None,
    };
    let supported_values: Option<String> = match (p.min, p.max) {
        (Some(mn), Some(mx)) => {
            let caps = match p.caps {
                Some(c) => c,
                None => 0,
            };
            Some(supported_values_display(p.name.as_str(), mn, mx, caps))
        },
        _ => None,
    };
    PropertyOutput { value, default, supported_values }
}

/// Builds the display record of one enumerated device.
///
/// Keeps the enumeration index, falls back to "Unknown" for a nameless
/// device, copies the metadata, and renders every property of both groups,
/// image-processing first, in list order.
pub fn build_device_output(idx: usize, device: &DeviceInfo) -> (r: DeviceOutput)
    ensures
        r.index == idx,
        r.name@ == (match device.name {
            Some(n) => n@,
            None => "Unknown"@,
        }),
        opt_text_eq(r.device_info.device_path, device.device_path),
        opt_text_eq(r.device_info.manufacturer, device.manufacturer),
        opt_text_eq(r.device_info.device_description, device.device_description),
        opt_text_eq(r.device_info.driver_version, device.driver_version),
        opt_text_eq(r.device_info.driver_date, device.driver_date),
        opt_text_eq(r.device_info.driver_path, device.driver_path),
        r.properties@.len() == device.video_proc_amp_properties@.len()
            + device.camera_control_properties@.len(),
        forall|j: int|
            0 <= j < r.properties@.len() ==> {
                let all = device.video_proc_amp_properties@ + device.camera_control_properties@;
                (#[trigger] r.properties@[j]).0@ == all[j].name@ && prop_output_matches(
                    all[j],
                    r.properties@[j].1,
                )
            },
{
    let ghost all = device.video_proc_amp_properties@ + device.camera_control_properties@;
    let name: String = match &device.name {
        Some(n) => n.clone(),
        None => String::from_str("Unknown"),
    };
    let device_info = DeviceInfoOutput {
        device_path: clone_opt(&device.device_path),
        manufacturer: clone_opt(&device.manufacturer),
        device_description: clone_opt(&device.device_description),
        driver_version: clone_opt(&device.driver_version),
        driver_date: clone_opt(&device.driver_date),
        driver_path: clone_opt(&device.driver_path),
    };
    let mut properties: Vec<(String, PropertyOutput)> = Vec::new();
    let n1 = device.video_proc_amp_properties.len();
    let mut k: usize = 0;
    while k < n1
        invariant
            n1 == device.video_proc_amp_properties@.len(),
            all == device.video_proc_amp_properties@ + device.camera_control_properties@,
            0 <= k <= n1,
            properties@.len() == k,
            forall|j: int|
                0 <= j < k ==> (#[trigger] properties@[j]).0@ == all[j].name@
                    && prop_output_matches(all[j], properties@[j].1),
        decreases n1 - k,
    {
        let p = &device.video_proc_amp_properties[k];
        proof {
            assert(all[k as int] == device.video_proc_amp_properties@[k as int]);
        }
        properties.push((p.name.clone(), make_prop_output(p)));
        k = k + 1;
    }
    let n2 = device.camera_control_properties.len();
    let mut m: usize = 0;
    while m < n2
        invariant
            n1 == device.video_proc_amp_properties@.len(),
            n2 == device.camera_control_properties@.len(),
            all == device.video_proc_amp_properties@ + device.camera_control_properties@,
            0 <= m <= n2,
            properties@.len() == n1 + m,
            forall|j: int|
                0 <= j < n1 + m ==> (#[trigger] properties@[j]).0@ == all[j].name@
                    && prop_output_matches(all[j], properties@[j].1),
        decreases n2 - m,
    {
        let p = &device.camera_control_properties[m];
        proof {
            assert(all[n1 + m] == device.camera_control_properties@[m as int]);
        }
        properties.push((p.name.clone(), make_prop_output(p)));
        m = m + 1;
    }
    DeviceOutput { index: idx, name, device_info, properties }
}

/// A copy of an optional string.
fn clone_opt(s: &Option<String>) -> (r: Option<String>)
    ensures
        opt_text_eq(r, *s),
{
    match s {
        Some(x) => Some(x.clone()),
        None => None,
    }
}

/// What `property_display_string` renders: the formatted value, with the
/// supported values and the default in parentheses when either is known;
/// `<unavailable>` when the current value was never read.
pub open spec fn property_display_spec(o: PropertyOutput) -> Seq<char> {
    match o.value {
        None => "<unavailable>"@,
        Some(v) => match (o.supported_values, o.default) {
            (Some(s), Some(d)) => v@ + " (Supported: "@ + s@ + ", Default: "@ + d@ + ")"@,
            (Some(s), None) => v@ + " (Supported: "@ + s@ + ")"@,
            (None, Some(d)) => v@ + " (Default: "@ + d@ + ")"@,
            (None, None) => v@,
        },
    }
}

/// Renders one property's display line fragment.
pub fn property_display_string(o: &PropertyOutput) -> (r: String)
    ensures
        r@ == property_display_spec(*o),
{
    match &o.value {
        None => {
            proof {
                reveal_strlit("<unavailable>");
            }
            String::from_str("<unavailable>")
        },
        Some(v) => {
            let mut out = v.clone();
            match (&o.supported_values, &o.default) {
                (Some(s), Some(d)) => {
                    out.append(" (Supported: ");
                    out.append(s.as_str());
                    out.append(", Default: ");
                    out.append(d.as_str());
                    out.append(")");
                    proof {
                        assert(out@ =~= property_display_spec(*o));
                    }
                },
                (Some(s), None) => {
                    out.append(" (Supported: ");
                    out.append(s.as_str());
                    out.append(")");
                    proof {
                        assert(out@ =~= property_display_spec(*o));
                    }
                },
                (None, Some(d)) => {
                    out.append(" (Default: ");
                    out.append(d.as_str());
                    out.append(")");
                    proof {
                        assert(out@ =~= property_display_spec(*o));
                    }
                },
                (None, None) => {},
            }
            out
        },
    }
}

} // verus!
