use wincamcfg::codec::{
    build_enum_display, format_capabilities, format_property_value, get_enum_mapping,
    parse_property_value, supported_values_display,
};
use wincamcfg::catalog::PropertyType;
use wincamcfg::error::CamError;
use wincamcfg::numerals::{i32_to_string, parse_i32_str};

#[test]
fn format_powerline_labels() {
    assert_eq!(format_property_value("PowerlineFrequency", 0), "Disabled");
    assert_eq!(format_property_value("PowerlineFrequency", 1), "50Hz");
    assert_eq!(format_property_value("PowerlineFrequency", 2), "60Hz");
    assert_eq!(format_property_value("PowerlineFrequency", 3), "Auto");
    assert_eq!(format_property_value("PowerlineFrequency", 7), "Unknown(7)");
}

#[test]
fn format_on_off_labels() {
    assert_eq!(format_property_value("ColorEnable", 0), "Off");
    assert_eq!(format_property_value("ColorEnable", 1), "On");
    assert_eq!(format_property_value("ColorEnable", 5), "Unknown(5)");
    assert_eq!(format_property_value("BacklightCompensation", 0), "Off");
    assert_eq!(format_property_value("BacklightCompensation", 1), "On");
    assert_eq!(format_property_value("BacklightCompensation", -3), "Unknown(-3)");
}

#[test]
fn format_numeric_properties() {
    assert_eq!(format_property_value("Brightness", 128), "128");
    assert_eq!(format_property_value("Contrast", 0), "0");
    assert_eq!(format_property_value("Pan", -10), "-10");
    assert_eq!(format_property_value("Zoom", 2147483647), "2147483647");
    assert_eq!(format_property_value("Tilt", -2147483648), "-2147483648");
}

#[test]
fn parse_accepts_auto_in_any_case() {
    assert_eq!(parse_property_value("PowerlineFrequency", "auto"), Ok((0, true)));
    assert_eq!(parse_property_value("PowerlineFrequency", "Auto"), Ok((0, true)));
    assert_eq!(parse_property_value("PowerlineFrequency", "AUTO"), Ok((0, true)));
    assert_eq!(parse_property_value("Brightness", "aUtO"), Ok((0, true)));
    assert_eq!(parse_property_value("Zoom", "AUTO"), Ok((0, true)));
}

#[test]
fn parse_powerline_aliases() {
    assert_eq!(parse_property_value("PowerlineFrequency", "Disabled"), Ok((0, false)));
    assert_eq!(parse_property_value("PowerlineFrequency", "disabled"), Ok((0, false)));
    assert_eq!(parse_property_value("PowerlineFrequency", "DISABLED"), Ok((0, false)));
    assert_eq!(parse_property_value("PowerlineFrequency", "50Hz"), Ok((1, false)));
    assert_eq!(parse_property_value("PowerlineFrequency", "50hz"), Ok((1, false)));
    assert_eq!(parse_property_value("PowerlineFrequency", "50"), Ok((1, false)));
    assert_eq!(parse_property_value("PowerlineFrequency", "60Hz"), Ok((2, false)));
    assert_eq!(parse_property_value("PowerlineFrequency", "60HZ"), Ok((2, false)));
    assert_eq!(parse_property_value("PowerlineFrequency", "60"), Ok((2, false)));
}

#[test]
fn parse_on_off_aliases() {
    assert_eq!(parse_property_value("ColorEnable", "Off"), Ok((0, false)));
    assert_eq!(parse_property_value("ColorEnable", "off"), Ok((0, false)));
    assert_eq!(parse_property_value("ColorEnable", "0"), Ok((0, false)));
    assert_eq!(parse_property_value("ColorEnable", "On"), Ok((1, false)));
    assert_eq!(parse_property_value("ColorEnable", "ON"), Ok((1, false)));
    assert_eq!(parse_property_value("ColorEnable", "1"), Ok((1, false)));
    assert_eq!(parse_property_value("BacklightCompensation", "on"), Ok((1, false)));
}

#[test]
fn parse_plain_numerals() {
    assert_eq!(parse_property_value("Brightness", "128"), Ok((128, false)));
    assert_eq!(parse_property_value("Brightness", "-42"), Ok((-42, false)));
    assert_eq!(parse_property_value("Brightness", "007"), Ok((7, false)));
    assert_eq!(parse_property_value("Zoom", "2147483647"), Ok((2147483647, false)));
    assert_eq!(parse_property_value("Zoom", "-2147483648"), Ok((-2147483648, false)));
    // Unmatched strings for a special property still fall back to numerals.
    assert_eq!(parse_property_value("PowerlineFrequency", "2"), Ok((2, false)));
}

#[test]
fn parse_rejects_bad_input() {
    // Over 32 characters.
    let long = "123456789012345678901234567890123";
    assert_eq!(parse_property_value("Brightness", long), Err(CamError::InvalidInput));
    // Characters outside the allowed set.
    assert_eq!(parse_property_value("Brightness", "1+2"), Err(CamError::InvalidInput));
    assert_eq!(parse_property_value("Brightness", "a_b"), Err(CamError::InvalidInput));
    // Allowed characters but no label and no numeral.
    assert_eq!(parse_property_value("Brightness", "xyz"), Err(CamError::InvalidValue));
    assert_eq!(parse_property_value("PowerlineFrequency", "55Hz"), Err(CamError::InvalidValue));
    assert_eq!(parse_property_value("Brightness", ""), Err(CamError::InvalidValue));
    assert_eq!(parse_property_value("Brightness", "-"), Err(CamError::InvalidValue));
    // A numeral that does not fit in 32 bits.
    assert_eq!(parse_property_value("Brightness", "2147483648"), Err(CamError::InvalidValue));
    assert_eq!(
        parse_property_value("Brightness", "99999999999999999999"),
        Err(CamError::InvalidValue)
    );
}

#[test]
fn round_trip_format_then_parse() {
    for &(name, v) in &[
        ("Brightness", -42),
        ("Brightness", 0),
        ("Zoom", 2147483647),
        ("Pan", -2147483648),
        ("PowerlineFrequency", 0),
        ("PowerlineFrequency", 1),
        ("PowerlineFrequency", 2),
        ("ColorEnable", 0),
        ("ColorEnable", 1),
        ("BacklightCompensation", 0),
        ("BacklightCompensation", 1),
    ] {
        let shown = format_property_value(name, v);
        assert_eq!(parse_property_value(name, &shown), Ok((v, false)), "{} {}", name, v);
    }
    // The powerline "Auto" label comes back as an automatic-mode request,
    // not as the numeric code 3.
    let shown = format_property_value("PowerlineFrequency", 3);
    assert_eq!(parse_property_value("PowerlineFrequency", &shown), Ok((0, true)));
}

#[test]
fn capabilities_rendering() {
    assert_eq!(
        format_capabilities(PropertyType::VideoProcAmp, 3),
        Some("Manual, Auto".to_string())
    );
    assert_eq!(format_capabilities(PropertyType::VideoProcAmp, 2), Some("Manual".to_string()));
    assert_eq!(format_capabilities(PropertyType::VideoProcAmp, 1), Some("Auto".to_string()));
    assert_eq!(format_capabilities(PropertyType::VideoProcAmp, 0), None);
    assert_eq!(
        format_capabilities(PropertyType::CameraControl, 3),
        Some("Manual, Auto".to_string())
    );
    assert_eq!(format_capabilities(PropertyType::CameraControl, 0), None);
}

#[test]
fn enum_mapping_respects_range() {
    let full = get_enum_mapping("PowerlineFrequency", 0, 3).unwrap();
    assert_eq!(
        full,
        vec![
            (0, "Disabled".to_string()),
            (1, "50Hz".to_string()),
            (2, "60Hz".to_string()),
            (3, "Auto".to_string()),
        ]
    );
    let mid = get_enum_mapping("PowerlineFrequency", 1, 2).unwrap();
    assert_eq!(mid, vec![(1, "50Hz".to_string()), (2, "60Hz".to_string())]);
    let onoff = get_enum_mapping("ColorEnable", 0, 1).unwrap();
    assert_eq!(onoff, vec![(0, "Off".to_string()), (1, "On".to_string())]);
    assert_eq!(get_enum_mapping("Brightness", 0, 255), None);
}

#[test]
fn enum_display_rendering() {
    assert_eq!(
        build_enum_display("PowerlineFrequency", 0, 3),
        Some("Disabled (0), 50Hz (1), 60Hz (2), Auto (3)".to_string())
    );
    assert_eq!(build_enum_display("ColorEnable", 0, 1), Some("Off (0), On (1)".to_string()));
    assert_eq!(build_enum_display("PowerlineFrequency", 1, 1), Some("50Hz (1)".to_string()));
    assert_eq!(build_enum_display("Brightness", 0, 255), None);
}

#[test]
fn supported_values_rendering() {
    assert_eq!(
        supported_values_display("PowerlineFrequency", 0, 2, 2),
        "Disabled, 50Hz, 60Hz".to_string()
    );
    assert_eq!(
        supported_values_display("PowerlineFrequency", 0, 2, 3),
        "Disabled, 50Hz, 60Hz, Auto".to_string()
    );
    assert_eq!(supported_values_display("Brightness", 0, 255, 2), "0-255".to_string());
    assert_eq!(supported_values_display("Brightness", 0, 255, 3), "0-255, Auto".to_string());
    assert_eq!(supported_values_display("Exposure", -13, -1, 1), "-13--1, Auto".to_string());
}

#[test]
fn numeral_rendering() {
    assert_eq!(i32_to_string(0), "0");
    assert_eq!(i32_to_string(7), "7");
    assert_eq!(i32_to_string(-7), "-7");
    assert_eq!(i32_to_string(1048576), "1048576");
    assert_eq!(i32_to_string(2147483647), "2147483647");
    assert_eq!(i32_to_string(-2147483648), "-2147483648");
}

#[test]
fn numeral_parsing() {
    assert_eq!(parse_i32_str("0"), Some(0));
    assert_eq!(parse_i32_str("007"), Some(7));
    assert_eq!(parse_i32_str("-0"), Some(0));
    assert_eq!(parse_i32_str("2147483647"), Some(2147483647));
    assert_eq!(parse_i32_str("-2147483648"), Some(-2147483648));
    assert_eq!(parse_i32_str("2147483648"), None);
    assert_eq!(parse_i32_str("-2147483649"), None);
    assert_eq!(parse_i32_str(""), None);
    assert_eq!(parse_i32_str("-"), None);
    assert_eq!(parse_i32_str("+7"), None);
    assert_eq!(parse_i32_str("12 3"), None);
    assert_eq!(parse_i32_str("4-2"), None);
}
