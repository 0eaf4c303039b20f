//! The value codec: between human-readable property value strings and the
//! raw numeric encoding the driver layer uses.
//!
//! Three properties have label sets instead of plain numerals: powerline
//! frequency (Disabled/50Hz/60Hz/Auto) and the two on/off style properties
//! (color enable and backlight compensation). Every other property reads and
//! writes plain decimal numerals. Parsing accepts labels case-insensitively
//! and falls back to strict decimal parsing; formatting always emits the
//! canonical label or the canonical numeral.

use vstd::prelude::*;

use crate::catalog::{
    auto_flag_spec, cc_from_name_spec, manual_flag_spec, vpa_from_name_spec, auto_flag,
    manual_flag, cc_from_name, vpa_from_name, PropertyType,
};
use crate::chars::{all_value_chars, chars_eq_ci, check_value_chars, str_eq, str_eq_ci};
use crate::error::CamError;
use crate::numerals::{dec_string_of, i32_to_string, numeral_fits_i32, numeral_val, parse_i32_str};

verus! {

/// `name` is the powerline-frequency property.
pub open spec fn is_powerline(name: Seq<char>) -> bool {
    name == "PowerlineFrequency"@
}

/// `name` is one of the two on/off style properties.
pub open spec fn is_on_off(name: Seq<char>) -> bool {
    name == "ColorEnable"@ || name == "BacklightCompensation"@
}

/// The rendering of a raw value no label is assigned to.
pub open spec fn unknown_of(v: int) -> Seq<char> {
    "Unknown("@ + dec_string_of(v) + ")"@
}

/// The label of a powerline-frequency value, if one is assigned.
pub open spec fn powerline_label(v: int) -> Option<Seq<char>> {
    if v == 0 {
        Some("Disabled"@)
    } else if v == 1 {
        Some("50Hz"@)
    } else if v == 2 {
        Some("60Hz"@)
    } else if v == 3 {
        Some("Auto"@)
    } else {
        None
    }
}

/// The label of an on/off value, if one is assigned.
pub open spec fn on_off_label(v: int) -> Option<Seq<char>> {
    if v == 0 {
        Some("Off"@)
    } else if v == 1 {
        Some("On"@)
    } else {
        None
    }
}

/// What `format_property_value` returns: the label of a special property's
/// value, `Unknown(<n>)` for a special property's unassigned value, and the
/// plain decimal numeral for every other property.
pub open spec fn format_value_spec(name: Seq<char>, v: int) -> Seq<char> {
    if is_powerline(name) {
        match powerline_label(v) {
            Some(l) => l,
            None => unknown_of(v),
        }
    } else if is_on_off(name) {
        match on_off_label(v) {
            Some(l) => l,
            None => unknown_of(v),
        }
    } else {
        dec_string_of(v)
    }
}

/// The numeric value of a label alias for `name`, matched case-insensitively.
pub open spec fn label_value_spec(name: Seq<char>, s: Seq<char>) -> Option<i32> {
    if is_powerline(name) {
        if chars_eq_ci(s, "Disabled"@) {
            Some(0i32)
        } else if chars_eq_ci(s, "50Hz"@) || chars_eq_ci(s, "50"@) {
            Some(1i32)
        } else if chars_eq_ci(s, "60Hz"@) || chars_eq_ci(s, "60"@) {
            Some(2i32)
        } else {
            None
        }
    } else if is_on_off(name) {
        if chars_eq_ci(s, "Off"@) || chars_eq_ci(s, "0"@) {
            Some(0i32)
        } else if chars_eq_ci(s, "On"@) || chars_eq_ci(s, "1"@) {
            Some(1i32)
        } else {
            None
        }
    } else {
        None
    }
}

/// What `parse_property_value` returns for a property name and a value
/// string: length and character-set validation first, then the
/// case-insensitive "auto" request, then the property's label aliases, then
/// strict decimal parsing.
pub open spec fn parse_value_spec(name: Seq<char>, s: Seq<char>) -> Result<(i32, bool), CamError> {
    if s.len() > 32 {
        Err(CamError::InvalidInput)
    } else if !all_value_chars(s) {
        Err(CamError::InvalidInput)
    } else if chars_eq_ci(s, "auto"@) {
        Ok((0i32, true))
    } else {
        match label_value_spec(name, s) {
            Some(v) => Ok((v, false)),
            None => if numeral_fits_i32(s) {
                Ok((numeral_val(s) as i32, false))
            } else {
                Err(CamError::InvalidValue)
            },
        }
    }
}

/// Renders a raw property value as its human-readable form.
pub fn format_property_value(property_name: &str, value: i32) -> (r: String)
    ensures
        r@ == format_value_spec(property_name@, value as int),
{
    if str_eq(property_name, "PowerlineFrequency") {
        if value == 0 {
            String::from_str("Disabled")
        } else if value == 1 {
            String::from_str("50Hz")
        } else if value == 2 {
            String::from_str("60Hz")
        } else if value == 3 {
            String::from_str("Auto")
        } else {
            unknown_value_string(value)
        }
    } else if str_eq(property_name, "ColorEnable") || str_eq(property_name, "BacklightCompensation") {
        if value == 0 {
            String::from_str("Off")
        } else if value == 1 {
            String::from_str("On")
        } else {
            unknown_value_string(value)
        }
    } else {
        i32_to_string(value)
    }
}

/// Renders `Unknown(<value>)`.
fn unknown_value_string(value: i32) -> (r: String)
    ensures
        r@ == unknown_of(value as int),
{
    let mut s = String::from_str("Unknown(");
    let num = i32_to_string(value);
    s.append(num.as_str());
    s.append(")");
    proof {
        assert(s@ =~= unknown_of(value as int));
    }
    s
}

/// The label alias value of `value_str` for this property, if any.
fn label_value(property_name: &str, value_str: &str) -> (r: Option<i32>)
    ensures
        r == label_value_spec(property_name@, value_str@),
{
    if str_eq(property_name, "PowerlineFrequency") {
        if str_eq_ci(value_str, "Disabled") {
            Some(0)
        } else if str_eq_ci(value_str, "50Hz") || str_eq_ci(value_str, "50") {
            Some(1)
        } else if str_eq_ci(value_str, "60Hz") || str_eq_ci(value_str, "60") {
            Some(2)
        } else {
            None
        }
    } else if str_eq(property_name, "ColorEnable") || str_eq(property_name, "BacklightCompensation") {
        if str_eq_ci(value_str, "Off") || str_eq_ci(value_str, "0") {
            Some(0)
        } else if str_eq_ci(value_str, "On") || str_eq_ci(value_str, "1") {
            Some(1)
        } else {
            None
        }
    } else {
        None
    }
}

/// Parses a value string for a property into `(raw value, auto requested)`.
///
/// A request for automatic mode returns `(0, true)`; the raw value carries no
/// information then. Any other accepted input returns `(value, false)`.
pub fn parse_property_value(property_name: &str, value_str: &str) -> (r: Result<
    (i32, bool),
    CamError,
>)
    ensures
        r == parse_value_spec(property_name@, value_str@),
{
    if value_str.unicode_len() > 32 {
        return Err(CamError::InvalidInput);
    }
    if !check_value_chars(value_str) {
        return Err(CamError::InvalidInput);
    }
    if str_eq_ci(value_str, "auto") {
        return Ok((0, true));
    }
    match label_value(property_name, value_str) {
        Some(v) => Ok((v, false)),
        None => match parse_i32_str(value_str) {
            Some(v) => Ok((v, false)),
            None => Err(CamError::InvalidValue),
        },
    }
}

/// The group whose flag table applies to this property name: the group the
/// catalog assigns it to, the image-processing group when the name is not in
/// the catalog.
pub open spec fn group_of_name(name: Seq<char>) -> PropertyType {
    if vpa_from_name_spec(name) is Some {
        PropertyType::VideoProcAmp
    } else if cc_from_name_spec(name) is Some {
        PropertyType::CameraControl
    } else {
        PropertyType::VideoProcAmp
    }
}

/// The flags say the property supports manual mode in this group.
pub open spec fn has_manual(group: PropertyType, caps: i32) -> bool {
    caps & manual_flag_spec(group) != 0
}

/// The flags say the property supports automatic mode in this group.
pub open spec fn has_auto(group: PropertyType, caps: i32) -> bool {
    caps & auto_flag_spec(group) != 0
}

/// What `format_capabilities` returns: the readable list of supported modes,
/// `None` when the flags name neither mode.
pub open spec fn capabilities_spec(group: PropertyType, caps: i32) -> Option<Seq<char>> {
    if has_manual(group, caps) && has_auto(group, caps) {
        Some("Manual, Auto"@)
    } else if has_manual(group, caps) {
        Some("Manual"@)
    } else if has_auto(group, caps) {
        Some("Auto"@)
    } else {
        None
    }
}

/// Renders capability flags as a readable mode list, under the group's own
/// flag table.
pub fn format_capabilities(group: PropertyType, caps: i32) -> (r: Option<String>)
    ensures
        match r {
            Some(s) => capabilities_spec(group, caps) == Some(s@),
            None => capabilities_spec(group, caps) is None,
        },
{
    let manual = caps & manual_flag(group) != 0;
    let auto = caps & auto_flag(group) != 0;
    if manual && auto {
        Some(String::from_str("Manual, Auto"))
    } else if manual {
        Some(String::from_str("Manual"))
    } else if auto {
        Some(String::from_str("Auto"))
    } else {
        None
    }
}

/// The `(value, label)` pairs of a special property that fall inside
/// `[min, max]`, in ascending value order; `None` for a property without a
/// label set.
pub open spec fn enum_mapping_spec(name: Seq<char>, min: int, max: int) -> Option<
    Seq<(i32, Seq<char>)>,
> {
    if is_powerline(name) {
        Some(
            (if min <= 0 && 0 <= max {
                seq![(0i32, "Disabled"@)]
            } else {
                Seq::empty()
            }) + (if min <= 1 && 1 <= max {
                seq![(1i32, "50Hz"@)]
            } else {
                Seq::empty()
            }) + (if min <= 2 && 2 <= max {
                seq![(2i32, "60Hz"@)]
            } else {
                Seq::empty()
            }) + (if min <= 3 && 3 <= max {
                seq![(3i32, "Auto"@)]
            } else {
                Seq::empty()
            }),
        )
    } else if is_on_off(name) {
        Some(
            (if min <= 0 && 0 <= max {
                seq![(0i32, "Off"@)]
            } else {
                Seq::empty()
            }) + (if min <= 1 && 1 <= max {
                seq![(1i32, "On"@)]
            } else {
                Seq::empty()
            }),
        )
    } else {
        None
    }
}

/// The executable pairs agree with the spec pairs element for element.
pub open spec fn pairs_match(v: Seq<(i32, String)>, s: Seq<(i32, Seq<char>)>) -> bool {
    v.len() == s.len() && forall|i: int|
        0 <= i < v.len() ==> (#[trigger] v[i]).0 == s[i].0 && v[i].1@ == s[i].1
}

/// The label set of a special property restricted to `[min, max]`, with each
/// label's raw value; `None` for a property without a label set.
pub fn get_enum_mapping(property_name: &str, min: i32, max: i32) -> (r: Option<Vec<(i32, String)>>)
    ensures
        match r {
            Some(v) => enum_mapping_spec(property_name@, min as int, max as int) matches Some(s)
                && pairs_match(v@, s),
            None => enum_mapping_spec(property_name@, min as int, max as int) is None,
        },
{
    if str_eq(property_name, "PowerlineFrequency") {
        let mut v: Vec<(i32, String)> = Vec::new();
        if min <= 0 && 0 <= max {
            v.push((0, String::from_str("Disabled")));
        }
        if min <= 1 && 1 <= max {
            v.push((1, String::from_str("50Hz")));
        }
        if min <= 2 && 2 <= max {
            v.push((2, String::from_str("60Hz")));
        }
        if min <= 3 && 3 <= max {
            v.push((3, String::from_str("Auto")));
        }
        Some(v)
    } else if str_eq(property_name, "ColorEnable") || str_eq(property_name, "BacklightCompensation") {
        let mut v: Vec<(i32, String)> = Vec::new();
        if min <= 0 && 0 <= max {
            v.push((0, String::from_str("Off")));
        }
        if min <= 1 && 1 <= max {
            v.push((1, String::from_str("On")));
        }
        Some(v)
    } else {
        None
    }
}

/// One entry of the enum display: `<label> (<value>)`.
pub open spec fn pair_entry(p: (i32, Seq<char>)) -> Seq<char> {
    p.1 + " ("@ + dec_string_of(p.0 as int) + ")"@
}

/// The enum display entries joined with `", "`.
pub open spec fn join_pair_entries(ps: Seq<(i32, Seq<char>)>) -> Seq<char>
    decreases ps.len(),
{
    if ps.len() == 0 {
        Seq::empty()
    } else if ps.len() == 1 {
        pair_entry(ps[0])
    } else {
        join_pair_entries(ps.drop_last()) + ", "@ + pair_entry(ps.last())
    }
}

/// The labels joined with `", "`.
pub open spec fn join_labels(ps: Seq<(i32, Seq<char>)>) -> Seq<char>
    decreases ps.len(),
{
    if ps.len() == 0 {
        Seq::empty()
    } else if ps.len() == 1 {
        ps[0].1
    } else {
        join_labels(ps.drop_last()) + ", "@ + ps.last().1
    }
}

/// What `build_enum_display` returns.
pub open spec fn enum_display_spec(name: Seq<char>, min: int, max: int) -> Option<Seq<char>> {
    match enum_mapping_spec(name, min, max) {
        Some(ps) => Some(join_pair_entries(ps)),
        None => None,
    }
}

/// Renders a special property's in-range labels as `<label> (<value>)`
/// entries joined with `", "`; `None` for a property without a label set.
pub fn build_enum_display(property_name: &str, min: i32, max: i32) -> (r: Option<String>)
    ensures
        match r {
            Some(s) => enum_display_spec(property_name@, min as int, max as int) == Some(s@),
            None => enum_display_spec(property_name@, min as int, max as int) is None,
        },
{
    let mapping = get_enum_mapping(property_name, min, max);
    match mapping {
        None => None,
        Some(pairs) => {
            let ghost sp = enum_mapping_spec(property_name@, min as int, max as int)->Some_0;
            let mut out = String::new();
            let n = pairs.len();
            let mut i: usize = 0;
            proof {
                assert(sp.take(0) =~= Seq::<(i32, Seq<char>)>::empty());
            }
            while i < n
                invariant
                    n == pairs@.len(),
                    0 <= i <= n,
                    pairs_match(pairs@, sp),
                    out@ == join_pair_entries(sp.take(i as int)),
                decreases n - i,
            {
                if i > 0 {
                    out.append(", ");
                }
                out.append(pairs[i].1.as_str());
                out.append(" (");
                let num = i32_to_string(pairs[i].0);
                out.append(num.as_str());
                out.append(")");
                proof {
                    reveal_strlit(", ");
                    reveal_strlit(" (");
                    reveal_strlit(")");
                    let t = sp.take(i + 1);
                    assert(t.drop_last() =~= sp.take(i as int));
                    assert(t.last() == sp[i as int]);
                    assert(out@ =~= join_pair_entries(sp.take(i + 1)));
                }
                i = i + 1;
            }
            proof {
                assert(sp.take(n as int) =~= sp);
            }
            Some(out)
        },
    }
}

/// What `supported_values_display` returns: in-range labels joined with
/// `", "` for a special property, `<min>-<max>` otherwise, with `", Auto"`
/// appended when the flags say automatic mode is supported.
pub open spec fn supported_values_spec(name: Seq<char>, min: int, max: int, caps: i32) -> Seq<
    char,
> {
    let base = match enum_mapping_spec(name, min, max) {
        Some(ps) => join_labels(ps),
        None => dec_string_of(min) + "-"@ + dec_string_of(max),
    };
    if has_auto(group_of_name(name), caps) {
        base + ", Auto"@
    } else {
        base
    }
}

/// Renders the supported values of a property from its reported range and
/// capability flags.
pub fn supported_values_display(property_name: &str, min: i32, max: i32, caps: i32) -> (r: String)
    ensures
        r@ == supported_values_spec(property_name@, min as int, max as int, caps),
{
    let mapping = get_enum_mapping(property_name, min, max);
    let mut out: String;
    match mapping {
        None => {
            out = i32_to_string(min);
            out.append("-");
            let mx = i32_to_string(max);
            out.append(mx.as_str());
            proof {
                reveal_strlit("-");
                assert(out@ =~= dec_string_of(min as int) + "-"@ + dec_string_of(max as int));
            }
        },
        Some(pairs) => {
            let ghost sp = enum_mapping_spec(property_name@, min as int, max as int)->Some_0;
            out = String::new();
            let n = pairs.len();
            let mut i: usize = 0;
            proof {
                assert(sp.take(0) =~= Seq::<(i32, Seq<char>)>::empty());
            }
            while i < n
                invariant
                    n == pairs@.len(),
                    0 <= i <= n,
                    pairs_match(pairs@, sp),
                    out@ == join_labels(sp.take(i as int)),
                decreases n - i,
            {
                if i > 0 {
                    out.append(", ");
                }
                out.append(pairs[i].1.as_str());
                proof {
                    reveal_strlit(", ");
                    let t = sp.take(i + 1);
                    assert(t.drop_last() =~= sp.take(i as int));
                    assert(t.last() == sp[i as int]);
                    assert(out@ =~= join_labels(sp.take(i + 1)));
                }
                i = i + 1;
            }
            proof {
                assert(sp.take(n as int) =~= sp);
            }
        },
    }
    let group = group_of_name_exec(property_name);
    if caps & auto_flag(group) != 0 {
        out.append(", Auto");
        proof {
            reveal_strlit(", Auto");
        }
    }
    out
}

/// The group whose flag table applies to this property name.
fn group_of_name_exec(property_name: &str) -> (r: PropertyType)
    ensures
        r == group_of_name(property_name@),
{
    if vpa_from_name(property_name).is_some() {
        PropertyType::VideoProcAmp
    } else if cc_from_name(property_name).is_some() {
        PropertyType::CameraControl
    } else {
        PropertyType::VideoProcAmp
    }
}

} // verus!
