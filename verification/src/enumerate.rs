//! Assembling enumeration results.
//!
//! The unverified shell walks the provider's device list and, for every
//! device and every catalog property, performs the range query and the
//! current-value read. The raw answers come in here as plain values, one
//! `RawPropQuery` per catalog entry in catalog order, and are assembled into
//! the `PropertyInfo` lists of a `DeviceInfo`.
//!
//! A property whose range query failed is omitted entirely — that is the
//! normal way devices expose partial capability sets. A failed current-value
//! read only degrades `current` to `None`.

use vstd::prelude::*;

use crate::catalog::{
    camera_control_catalog, catalog_len, catalog_name, lemma_catalog_names_distinct,
    video_proc_amp_catalog, PropertyType,
};
use crate::codec::{capabilities_spec, format_capabilities};
use crate::model::{DeviceInfo, DeviceListItem, DriverInfo, PropertyInfo};

verus! {

/// A successful range query: bounds, step, default and capability flags.
#[derive(Clone, Copy, Debug, PartialEq, Eq, Structural)]
pub struct RawRange {
    pub min: i32,
    pub max: i32,
    pub step: i32,
    pub default: i32,
    pub caps: i32,
}

/// A successful current-value read: the raw value and the mode flags it was
/// read with.
#[derive(Clone, Copy, Debug, PartialEq, Eq, Structural)]
pub struct RawCurrent {
    pub value: i32,
    pub flags: i32,
}

/// The provider's answers for one catalog property: `None` where the call
/// failed.
#[derive(Clone, Copy, Debug, PartialEq, Eq, Structural)]
pub struct RawPropQuery {
    pub range: Option<RawRange>,
    pub current: Option<RawCurrent>,
}

/// The indices of the queries whose range query succeeded, in order.
pub open spec fn kept_indices(raw: Seq<RawPropQuery>) -> Seq<int>
    decreases raw.len(),
{
    if raw.len() == 0 {
        Seq::empty()
    } else {
        let init = kept_indices(raw.drop_last());
        if raw.last().range is Some {
            init.push(raw.len() - 1)
        } else {
            init
        }
    }
}

/// The kept indices point at exactly the queries with a successful range
/// query, in strictly increasing order.
pub proof fn lemma_kept_indices(raw: Seq<RawPropQuery>)
    ensures
        forall|j: int|
            0 <= j < kept_indices(raw).len() ==> 0 <= #[trigger] kept_indices(raw)[j] < raw.len()
                && raw[kept_indices(raw)[j]].range is Some,
        forall|j1: int, j2: int|
            0 <= j1 < j2 < kept_indices(raw).len() ==> #[trigger] kept_indices(raw)[j1]
                < #[trigger] kept_indices(raw)[j2],
        forall|i: int|
            0 <= i < raw.len() && raw[i].range is Some ==> kept_indices(raw).contains(i),
    decreases raw.len(),
{
    if raw.len() > 0 {
        let prefix = raw.drop_last();
        lemma_kept_indices(prefix);
        let init = kept_indices(prefix);
        assert(forall|j: int| 0 <= j < init.len() ==> prefix[#[trigger] init[j]] == raw[init[j]]);
        assert forall|i: int| 0 <= i < raw.len() && raw[i].range is Some implies kept_indices(
            raw,
        ).contains(i) by {
            if i < raw.len() - 1 {
                assert(prefix[i] == raw[i]);
                assert(init.contains(i));
                let j = choose|j: int| 0 <= j < init.len() && init[j] == i;
                assert(kept_indices(raw)[j] == i);
            } else {
                assert(raw.last().range is Some);
                assert(kept_indices(raw).last() == i);
            }
        }
    }
}

/// `p` is the property record that query `i` of the group yields.
pub open spec fn prop_from_query(
    p: PropertyInfo,
    group: PropertyType,
    raw: Seq<RawPropQuery>,
    i: int,
) -> bool {
    let q = raw[i];
    let rg = q.range->Some_0;
    &&& q.range is Some
    &&& p.name@ == catalog_name(group, i)
    &&& p.min == Some(rg.min)
    &&& p.max == Some(rg.max)
    &&& p.step == Some(rg.step)
    &&& p.default == Some(rg.default)
    &&& p.caps == Some(rg.caps)
    &&& p.current == (match q.current {
        Some(c) => Some(c.value),
        None => None::<i32>,
    })
    &&& (match p.capabilities {
        Some(s) => capabilities_spec(group, rg.caps) == Some(s@),
        None => capabilities_spec(group, rg.caps) is None,
    })
    &&& p.property_type == group
}

/// The canonical name of catalog entry `k` of the group.
fn catalog_name_at(group: PropertyType, k: usize) -> (r: String)
    requires
        k < catalog_len(group),
    ensures
        r@ == catalog_name(group, k as int),
{
    match group {
        PropertyType::VideoProcAmp => {
            let c = video_proc_amp_catalog();
            c[k].name()
        },
        PropertyType::CameraControl => {
            let c = camera_control_catalog();
            c[k].name()
        },
    }
}

/// Builds a group's property list from the raw query answers, one answer per
/// catalog entry in catalog order.
///
/// The list holds exactly the properties whose range query succeeded, in
/// catalog order; a property absent from the range answers is absent here.
pub fn collect_properties(group: PropertyType, raw: &Vec<RawPropQuery>) -> (r: Vec<PropertyInfo>)
    requires
        raw@.len() == catalog_len(group),
    ensures
        r@.len() == kept_indices(raw@).len(),
        forall|j: int|
            0 <= j < r@.len() ==> prop_from_query(
                r@[j],
                group,
                raw@,
                kept_indices(raw@)[j],
            ),
        forall|i: int, j: int|
            #![trigger raw@[i], r@[j]]
            0 <= i < raw@.len() && raw@[i].range is None && 0 <= j < r@.len() ==> r@[j].name@
                != catalog_name(group, i),
{
    let mut out: Vec<PropertyInfo> = Vec::new();
    let mut k: usize = 0;
    proof {
        assert(raw@.take(0) =~= Seq::<RawPropQuery>::empty());
    }
    while k < raw.len()
        invariant
            raw@.len() == catalog_len(group),
            0 <= k <= raw@.len(),
            out@.len() == kept_indices(raw@.take(k as int)).len(),
            forall|j: int|
                0 <= j < out@.len() ==> prop_from_query(
                    out@[j],
                    group,
                    raw@,
                    kept_indices(raw@.take(k as int))[j],
                ),
        decreases raw@.len() - k,
    {
        let q = raw[k];
        match q.range {
            Some(rg) => {
                let cur: Option<i32> = match q.current {
                    Some(c) => Some(c.value),
                    None => None,
                };
                let p = PropertyInfo {
                    name: catalog_name_at(group, k),
                    min: Some(rg.min),
                    max: Some(rg.max),
                    step: Some(rg.step),
                    default: Some(rg.default),
                    caps: Some(rg.caps),
                    current: cur,
                    capabilities: format_capabilities(group, rg.caps),
                    property_type: group,
                };
                out.push(p);
            },
            None => {},
        }
        proof {
            let t1 = raw@.take(k + 1);
            assert(t1.drop_last() =~= raw@.take(k as int));
            assert(t1.last() == raw@[k as int]);
        }
        k = k + 1;
    }
    proof {
        assert(raw@.take(raw@.len() as int) =~= raw@);
        lemma_kept_indices(raw@);
        assert forall|i: int, j: int|
            #![trigger raw@[i], out@[j]]
            0 <= i < raw@.len() && raw@[i].range is None && 0 <= j
                < out@.len() implies out@[j].name@ != catalog_name(group, i) by {
            let ki = kept_indices(raw@)[j];
            assert(prop_from_query(out@[j], group, raw@, ki));
            assert(raw@[ki].range is Some);
            lemma_catalog_names_distinct(group, ki, i);
        }
    }
    out
}

/// Builds one device's record from its identity metadata, its best-effort
/// driver metadata, and the raw property answers of both groups.
pub fn build_device_info(
    name: Option<String>,
    device_path: Option<String>,
    driver: DriverInfo,
    vpa_raw: &Vec<RawPropQuery>,
    cc_raw: &Vec<RawPropQuery>,
) -> (r: DeviceInfo)
    requires
        vpa_raw@.len() == catalog_len(PropertyType::VideoProcAmp),
        cc_raw@.len() == catalog_len(PropertyType::CameraControl),
    ensures
        r.name == name,
        r.device_path == device_path,
        r.device_description == driver.device_desc,
        r.manufacturer == driver.manufacturer,
        r.driver_version == driver.driver_version,
        r.driver_date == driver.driver_date,
        r.driver_path == driver.driver_path,
        r.video_proc_amp_properties@.len() == kept_indices(vpa_raw@).len(),
        forall|j: int|
            0 <= j < r.video_proc_amp_properties@.len() ==> prop_from_query(
                r.video_proc_amp_properties@[j],
                PropertyType::VideoProcAmp,
                vpa_raw@,
                kept_indices(vpa_raw@)[j],
            ),
        r.camera_control_properties@.len() == kept_indices(cc_raw@).len(),
        forall|j: int|
            0 <= j < r.camera_control_properties@.len() ==> prop_from_query(
                r.camera_control_properties@[j],
                PropertyType::CameraControl,
                cc_raw@,
                kept_indices(cc_raw@)[j],
            ),
{
    let vpa = collect_properties(PropertyType::VideoProcAmp, vpa_raw);
    let cc = collect_properties(PropertyType::CameraControl, cc_raw);
    DeviceInfo {
        name,
        device_path,
        device_description: driver.device_desc,
        manufacturer: driver.manufacturer,
        driver_version: driver.driver_version,
        driver_date: driver.driver_date,
        driver_path: driver.driver_path,
        video_proc_amp_properties: vpa,
        camera_control_properties: cc,
    }
}

/// Reduces full enumeration results to the lightweight device list: index,
/// display name ("Unknown" where none was read), and the stable path.
pub fn list_devices(devices: &Vec<DeviceInfo>) -> (r: Vec<DeviceListItem>)
    ensures
        r@.len() == devices@.len(),
        forall|i: int|
            0 <= i < r@.len() ==> {
                &&& (#[trigger] r@[i]).index == i
                &&& r@[i].name@ == (match devices@[i].name {
                    Some(n) => n@,
                    None => "Unknown"@,
                })
                &&& (match r@[i].device_path {
                    Some(p) => devices@[i].device_path matches Some(q) && p@ == q@,
                    None => devices@[i].device_path is None,
                })
            },
{
    let mut out: Vec<DeviceListItem> = Vec::new();
    let mut k: usize = 0;
    while k < devices.len()
        invariant
            0 <= k <= devices@.len(),
            out@.len() == k,
            forall|i: int|
                0 <= i < k ==> {
                    &&& (#[trigger] out@[i]).index == i
                    &&& out@[i].name@ == (match devices@[i].name {
                        Some(n) => n@,
                        None => "Unknown"@,
                    })
                    &&& (match out@[i].device_path {
                        Some(p) => devices@[i].device_path matches Some(q) && p@ == q@,
                        None => devices@[i].device_path is None,
                    })
                },
        decreases devices@.len() - k,
    {
        let d = &devices[k];
        let item_name: String = match &d.name {
            Some(n) => n.clone(),
            None => String::from_str("Unknown"),
        };
        let item_path: Option<String> = match &d.device_path {
            Some(p) => Some(p.clone()),
            None => None,
        };
        out.push(DeviceListItem { index: k, name: item_name, device_path: item_path });
        k = k + 1;
    }
    out
}

} // verus!
