//! The fixed property catalog.
//!
//! Two property groups exist: image-processing properties and
//! mechanical/optical properties. Each group has a fixed, ordered list of
//! known properties; the order is significant, it is the order in which an
//! enumeration pass reports them. Each property has a stable canonical name
//! and the numeric identifier the driver layer uses.
//!
//! The two groups also each have their own capability-flag encoding for
//! automatic and manual mode; the values are kept in per-group tables rather
//! than shared constants so that a flag is always read through its own
//! group's table.

use vstd::prelude::*;

use crate::chars::chars_eq_ci;
use crate::chars::str_eq_ci;

verus! {

/// The image-processing properties.
#[derive(Clone, Copy, Debug, PartialEq, Eq, Structural)]
pub enum VideoProcAmpProperty {
    Brightness,
    Contrast,
    Hue,
    Saturation,
    Sharpness,
    Gamma,
    ColorEnable,
    WhiteBalance,
    BacklightCompensation,
    Gain,
    DigitalMultiplier,
    DigitalMultiplierLimit,
    WhiteBalanceComponent,
    PowerlineFrequency,
}

/// The mechanical/optical properties.
#[derive(Clone, Copy, Debug, PartialEq, Eq, Structural)]
pub enum CameraControlProperty {
    Pan,
    Tilt,
    Roll,
    Zoom,
    Exposure,
    Iris,
    Focus,
}

/// Which of the two property groups a property belongs to.
#[derive(Clone, Copy, Debug, PartialEq, Eq, Structural)]
pub enum PropertyType {
    VideoProcAmp,
    CameraControl,
}

/// The driver-layer identifier of an image-processing property.
pub open spec fn vpa_id_spec(p: VideoProcAmpProperty) -> int {
    match p {
        VideoProcAmpProperty::Brightness => 0,
        VideoProcAmpProperty::Contrast => 1,
        VideoProcAmpProperty::Hue => 2,
        VideoProcAmpProperty::Saturation => 3,
        VideoProcAmpProperty::Sharpness => 4,
        VideoProcAmpProperty::Gamma => 5,
        VideoProcAmpProperty::ColorEnable => 6,
        VideoProcAmpProperty::WhiteBalance => 7,
        VideoProcAmpProperty::BacklightCompensation => 8,
        VideoProcAmpProperty::Gain => 9,
        VideoProcAmpProperty::DigitalMultiplier => 10,
        VideoProcAmpProperty::DigitalMultiplierLimit => 11,
        VideoProcAmpProperty::WhiteBalanceComponent => 12,
        VideoProcAmpProperty::PowerlineFrequency => 13,
    }
}

/// The canonical name of an image-processing property.
pub open spec fn vpa_name_spec(p: VideoProcAmpProperty) -> Seq<char> {
    match p {
        VideoProcAmpProperty::Brightness => "Brightness"@,
        VideoProcAmpProperty::Contrast => "Contrast"@,
        VideoProcAmpProperty::Hue => "Hue"@,
        VideoProcAmpProperty::Saturation => "Saturation"@,
        VideoProcAmpProperty::Sharpness => "Sharpness"@,
        VideoProcAmpProperty::Gamma => "Gamma"@,
        VideoProcAmpProperty::ColorEnable => "ColorEnable"@,
        VideoProcAmpProperty::WhiteBalance => "WhiteBalance"@,
        VideoProcAmpProperty::BacklightCompensation => "BacklightCompensation"@,
        VideoProcAmpProperty::Gain => "Gain"@,
        VideoProcAmpProperty::DigitalMultiplier => "DigitalMultiplier"@,
        VideoProcAmpProperty::DigitalMultiplierLimit => "DigitalMultiplierLimit"@,
        VideoProcAmpProperty::WhiteBalanceComponent => "WhiteBalanceComponent"@,
        VideoProcAmpProperty::PowerlineFrequency => "PowerlineFrequency"@,
    }
}

/// The driver-layer identifier of a mechanical/optical property.
pub open spec fn cc_id_spec(p: CameraControlProperty) -> int {
    match p {
        CameraControlProperty::Pan => 0,
        CameraControlProperty::Tilt => 1,
        CameraControlProperty::Roll => 2,
        CameraControlProperty::Zoom => 3,
        CameraControlProperty::Exposure => 4,
        CameraControlProperty::Iris => 5,
        CameraControlProperty::Focus => 6,
    }
}

/// The canonical name of a mechanical/optical property.
pub open spec fn cc_name_spec(p: CameraControlProperty) -> Seq<char> {
    match p {
        CameraControlProperty::Pan => "Pan"@,
        CameraControlProperty::Tilt => "Tilt"@,
        CameraControlProperty::Roll => "Roll"@,
        CameraControlProperty::Zoom => "Zoom"@,
        CameraControlProperty::Exposure => "Exposure"@,
        CameraControlProperty::Iris => "Iris"@,
        CameraControlProperty::Focus => "Focus"@,
    }
}

impl VideoProcAmpProperty {
    /// The identifier handed to the driver layer for this property.
    pub fn id(self) -> (r: i32)
        ensures
            r == vpa_id_spec(self),
    {
        match self {
            VideoProcAmpProperty::Brightness => 0,
            VideoProcAmpProperty::Contrast => 1,
            VideoProcAmpProperty::Hue => 2,
            VideoProcAmpProperty::Saturation => 3,
            VideoProcAmpProperty::Sharpness => 4,
            VideoProcAmpProperty::Gamma => 5,
            VideoProcAmpProperty::ColorEnable => 6,
            VideoProcAmpProperty::WhiteBalance => 7,
            VideoProcAmpProperty::BacklightCompensation => 8,
            VideoProcAmpProperty::Gain => 9,
            VideoProcAmpProperty::DigitalMultiplier => 10,
            VideoProcAmpProperty::DigitalMultiplierLimit => 11,
            VideoProcAmpProperty::WhiteBalanceComponent => 12,
            VideoProcAmpProperty::PowerlineFrequency => 13,
        }
    }

    /// The canonical name of this property.
    pub fn name(self) -> (r: String)
        ensures
            r@ == vpa_name_spec(self),
    {
        match self {
            VideoProcAmpProperty::Brightness => String::from_str("Brightness"),
            VideoProcAmpProperty::Contrast => String::from_str("Contrast"),
            VideoProcAmpProperty::Hue => String::from_str("Hue"),
            VideoProcAmpProperty::Saturation => String::from_str("Saturation"),
            VideoProcAmpProperty::Sharpness => String::from_str("Sharpness"),
            VideoProcAmpProperty::Gamma => String::from_str("Gamma"),
            VideoProcAmpProperty::ColorEnable => String::from_str("ColorEnable"),
            VideoProcAmpProperty::WhiteBalance => String::from_str("WhiteBalance"),
            VideoProcAmpProperty::BacklightCompensation => String::from_str(
                "BacklightCompensation",
            ),
            VideoProcAmpProperty::Gain => String::from_str("Gain"),
            VideoProcAmpProperty::DigitalMultiplier => String::from_str("DigitalMultiplier"),
            VideoProcAmpProperty::DigitalMultiplierLimit => String::from_str(
                "DigitalMultiplierLimit",
            ),
            VideoProcAmpProperty::WhiteBalanceComponent => String::from_str(
                "WhiteBalanceComponent",
            ),
            VideoProcAmpProperty::PowerlineFrequency => String::from_str("PowerlineFrequency"),
        }
    }
}

impl CameraControlProperty {
    /// The identifier handed to the driver layer for this property.
    pub fn id(self) -> (r: i32)
        ensures
            r == cc_id_spec(self),
    {
        match self {
            CameraControlProperty::Pan => 0,
            CameraControlProperty::Tilt => 1,
            CameraControlProperty::Roll => 2,
            CameraControlProperty::Zoom => 3,
            CameraControlProperty::Exposure => 4,
            CameraControlProperty::Iris => 5,
            CameraControlProperty::Focus => 6,
        }
    }

    /// The canonical name of this property.
    pub fn name(self) -> (r: String)
        ensures
            r@ == cc_name_spec(self),
    {
        match self {
            CameraControlProperty::Pan => String::from_str("Pan"),
            CameraControlProperty::Tilt => String::from_str("Tilt"),
            CameraControlProperty::Roll => String::from_str("Roll"),
            CameraControlProperty::Zoom => String::from_str("Zoom"),
            CameraControlProperty::Exposure => String::from_str("Exposure"),
            CameraControlProperty::Iris => String::from_str("Iris"),
            CameraControlProperty::Focus => String::from_str("Focus"),
        }
    }
}

/// The enumeration order of the image-processing group.
pub open spec fn vpa_catalog_spec() -> Seq<VideoProcAmpProperty> {
    seq![
        VideoProcAmpProperty::Brightness,
        VideoProcAmpProperty::Contrast,
        VideoProcAmpProperty::Saturation,
        VideoProcAmpProperty::Hue,
        VideoProcAmpProperty::WhiteBalance,
        VideoProcAmpProperty::WhiteBalanceComponent,
        VideoProcAmpProperty::ColorEnable,
        VideoProcAmpProperty::Gamma,
        VideoProcAmpProperty::Sharpness,
        VideoProcAmpProperty::BacklightCompensation,
        VideoProcAmpProperty::Gain,
        VideoProcAmpProperty::PowerlineFrequency,
        VideoProcAmpProperty::DigitalMultiplier,
        VideoProcAmpProperty::DigitalMultiplierLimit,
    ]
}

/// The enumeration order of the mechanical/optical group.
pub open spec fn cc_catalog_spec() -> Seq<CameraControlProperty> {
    seq![
        CameraControlProperty::Exposure,
        CameraControlProperty::Focus,
        CameraControlProperty::Pan,
        CameraControlProperty::Tilt,
        CameraControlProperty::Roll,
        CameraControlProperty::Zoom,
        CameraControlProperty::Iris,
    ]
}

/// How many properties the group's catalog holds.
pub open spec fn catalog_len(group: PropertyType) -> int {
    match group {
        PropertyType::VideoProcAmp => vpa_catalog_spec().len() as int,
        PropertyType::CameraControl => cc_catalog_spec().len() as int,
    }
}

/// The canonical name of the catalog entry at `i` in the group's order.
pub open spec fn catalog_name(group: PropertyType, i: int) -> Seq<char> {
    match group {
        PropertyType::VideoProcAmp => vpa_name_spec(vpa_catalog_spec()[i]),
        PropertyType::CameraControl => cc_name_spec(cc_catalog_spec()[i]),
    }
}

/// The driver-layer identifier of the catalog entry at `i` in the group's order.
pub open spec fn catalog_id(group: PropertyType, i: int) -> int {
    match group {
        PropertyType::VideoProcAmp => vpa_id_spec(vpa_catalog_spec()[i]),
        PropertyType::CameraControl => cc_id_spec(cc_catalog_spec()[i]),
    }
}

/// The image-processing catalog in enumeration order.
pub fn video_proc_amp_catalog() -> (r: Vec<VideoProcAmpProperty>)
    ensures
        r@ == vpa_catalog_spec(),
{
    let mut v: Vec<VideoProcAmpProperty> = Vec::new();
    v.push(VideoProcAmpProperty::Brightness);
    v.push(VideoProcAmpProperty::Contrast);
    v.push(VideoProcAmpProperty::Saturation);
    v.push(VideoProcAmpProperty::Hue);
    v.push(VideoProcAmpProperty::WhiteBalance);
    v.push(VideoProcAmpProperty::WhiteBalanceComponent);
    v.push(VideoProcAmpProperty::ColorEnable);
    v.push(VideoProcAmpProperty::Gamma);
    v.push(VideoProcAmpProperty::Sharpness);
    v.push(VideoProcAmpProperty::BacklightCompensation);
    v.push(VideoProcAmpProperty::Gain);
    v.push(VideoProcAmpProperty::PowerlineFrequency);
    v.push(VideoProcAmpProperty::DigitalMultiplier);
    v.push(VideoProcAmpProperty::DigitalMultiplierLimit);
    proof {
        assert(v@ =~= vpa_catalog_spec());
    }
    v
}

/// The mechanical/optical catalog in enumeration order.
pub fn camera_control_catalog() -> (r: Vec<CameraControlProperty>)
    ensures
        r@ == cc_catalog_spec(),
{
    let mut v: Vec<CameraControlProperty> = Vec::new();
    v.push(CameraControlProperty::Exposure);
    v.push(CameraControlProperty::Focus);
    v.push(CameraControlProperty::Pan);
    v.push(CameraControlProperty::Tilt);
    v.push(CameraControlProperty::Roll);
    v.push(CameraControlProperty::Zoom);
    v.push(CameraControlProperty::Iris);
    proof {
        assert(v@ =~= cc_catalog_spec());
    }
    v
}

/// The capability-flag value that means "automatic mode" in this group.
pub open spec fn auto_flag_spec(group: PropertyType) -> i32 {
    match group {
        PropertyType::VideoProcAmp => 1,
        PropertyType::CameraControl => 1,
    }
}

/// The capability-flag value that means "manual mode" in this group.
pub open spec fn manual_flag_spec(group: PropertyType) -> i32 {
    match group {
        PropertyType::VideoProcAmp => 2,
        PropertyType::CameraControl => 2,
    }
}

/// The group's flag value for automatic mode.
pub fn auto_flag(group: PropertyType) -> (r: i32)
    ensures
        r == auto_flag_spec(group),
{
    match group {
        PropertyType::VideoProcAmp => 1,
        PropertyType::CameraControl => 1,
    }
}

/// The group's flag value for manual mode.
pub fn manual_flag(group: PropertyType) -> (r: i32)
    ensures
        r == manual_flag_spec(group),
{
    match group {
        PropertyType::VideoProcAmp => 2,
        PropertyType::CameraControl => 2,
    }
}

/// Two different catalog entries of a group never share a canonical name.
pub proof fn lemma_catalog_names_distinct(group: PropertyType, i: int, j: int)
    requires
        0 <= i < catalog_len(group),
        0 <= j < catalog_len(group),
        i != j,
    ensures
        catalog_name(group, i) != catalog_name(group, j),
{
    reveal_strlit("Brightness");
    reveal_strlit("Contrast");
    reveal_strlit("Hue");
    reveal_strlit("Saturation");
    reveal_strlit("Sharpness");
    reveal_strlit("Gamma");
    reveal_strlit("ColorEnable");
    reveal_strlit("WhiteBalance");
    reveal_strlit("BacklightCompensation");
    reveal_strlit("Gain");
    reveal_strlit("DigitalMultiplier");
    reveal_strlit("DigitalMultiplierLimit");
    reveal_strlit("WhiteBalanceComponent");
    reveal_strlit("PowerlineFrequency");
    reveal_strlit("Pan");
    reveal_strlit("Tilt");
    reveal_strlit("Roll");
    reveal_strlit("Zoom");
    reveal_strlit("Exposure");
    reveal_strlit("Iris");
    reveal_strlit("Focus");
    assert(("Brightness"@).len() == 10);
    assert(("Contrast"@).len() == 8);
    assert(("Hue"@).len() == 3);
    assert(("Saturation"@).len() == 10);
    assert(("Sharpness"@).len() == 9);
    assert(("Gamma"@).len() == 5);
    assert(("ColorEnable"@).len() == 11);
    assert(("WhiteBalance"@).len() == 12);
    assert(("BacklightCompensation"@).len() == 21);
    assert(("Gain"@).len() == 4);
    assert(("DigitalMultiplier"@).len() == 17);
    assert(("DigitalMultiplierLimit"@).len() == 22);
    assert(("WhiteBalanceComponent"@).len() == 21);
    assert(("PowerlineFrequency"@).len() == 18);
    assert(("Pan"@).len() == 3);
    assert(("Tilt"@).len() == 4);
    assert(("Roll"@).len() == 4);
    assert(("Zoom"@).len() == 4);
    assert(("Exposure"@).len() == 8);
    assert(("Iris"@).len() == 4);
    assert(("Focus"@).len() == 5);
    // The pairs of equal length differ in their first character.
    assert(("Brightness"@)[0] != ("Saturation"@)[0]);
    assert(("BacklightCompensation"@)[0] != ("WhiteBalanceComponent"@)[0]);
    assert(("Tilt"@)[0] != ("Roll"@)[0]);
    assert(("Tilt"@)[0] != ("Zoom"@)[0]);
    assert(("Tilt"@)[0] != ("Iris"@)[0]);
    assert(("Roll"@)[0] != ("Zoom"@)[0]);
    assert(("Roll"@)[0] != ("Iris"@)[0]);
    assert(("Zoom"@)[0] != ("Iris"@)[0]);
}

/// The first property in `cat` whose canonical name matches `name` up to
/// ASCII case.
pub open spec fn vpa_first_match(
    cat: Seq<VideoProcAmpProperty>,
    name: Seq<char>,
) -> Option<VideoProcAmpProperty>
    decreases cat.len(),
{
    if cat.len() == 0 {
        None
    } else if chars_eq_ci(vpa_name_spec(cat[0]), name) {
        Some(cat[0])
    } else {
        vpa_first_match(cat.drop_first(), name)
    }
}

/// The image-processing property whose canonical name matches `name` up to
/// ASCII case, if any.
pub open spec fn vpa_from_name_spec(name: Seq<char>) -> Option<VideoProcAmpProperty> {
    vpa_first_match(vpa_catalog_spec(), name)
}

/// The first property in `cat` whose canonical name matches `name` up to
/// ASCII case.
pub open spec fn cc_first_match(
    cat: Seq<CameraControlProperty>,
    name: Seq<char>,
) -> Option<CameraControlProperty>
    decreases cat.len(),
{
    if cat.len() == 0 {
        None
    } else if chars_eq_ci(cc_name_spec(cat[0]), name) {
        Some(cat[0])
    } else {
        cc_first_match(cat.drop_first(), name)
    }
}

/// The mechanical/optical property whose canonical name matches `name` up to
/// ASCII case, if any.
pub open spec fn cc_from_name_spec(name: Seq<char>) -> Option<CameraControlProperty> {
    cc_first_match(cc_catalog_spec(), name)
}

/// Finds the image-processing property named `name`, up to ASCII case.
pub fn vpa_from_name(name: &str) -> (r: Option<VideoProcAmpProperty>)
    ensures
        r == vpa_from_name_spec(name@),
{
    let catalog = video_proc_amp_catalog();
    let mut k: usize = 0;
    proof {
        assert(catalog@.skip(0) =~= catalog@);
    }
    while k < catalog.len()
        invariant
            catalog@ == vpa_catalog_spec(),
            0 <= k <= catalog@.len(),
            vpa_first_match(catalog@.skip(k as int), name@) == vpa_from_name_spec(name@),
        decreases catalog@.len() - k,
    {
        let p = catalog[k];
        let cname = p.name();
        let ghost rest = catalog@.skip(k as int);
        if str_eq_ci(cname.as_str(), name) {
            proof {
                assert(rest[0] == catalog@[k as int]);
            }
            return Some(p);
        }
        proof {
            assert(rest.drop_first() =~= catalog@.skip(k + 1));
        }
        k = k + 1;
    }
    None
}

/// Finds the mechanical/optical property named `name`, up to ASCII case.
pub fn cc_from_name(name: &str) -> (r: Option<CameraControlProperty>)
    ensures
        r == cc_from_name_spec(name@),
{
    let catalog = camera_control_catalog();
    let mut k: usize = 0;
    proof {
        assert(catalog@.skip(0) =~= catalog@);
    }
    while k < catalog.len()
        invariant
            catalog@ == cc_catalog_spec(),
            0 <= k <= catalog@.len(),
            cc_first_match(catalog@.skip(k as int), name@) == cc_from_name_spec(name@),
        decreases catalog@.len() - k,
    {
        let p = catalog[k];
        let cname = p.name();
        let ghost rest = catalog@.skip(k as int);
        if str_eq_ci(cname.as_str(), name) {
            proof {
                assert(rest[0] == catalog@[k as int]);
            }
            return Some(p);
        }
        proof {
            assert(rest.drop_first() =~= catalog@.skip(k + 1));
        }
        k = k + 1;
    }
    None
}

} // verus!
