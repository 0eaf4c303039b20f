use wincamcfg::catalog::{camera_control_catalog, video_proc_amp_catalog, PropertyType};
use wincamcfg::enumerate::{
    build_device_info, collect_properties, list_devices, RawCurrent, RawPropQuery, RawRange,
};
use wincamcfg::model::{DeviceInfo, DriverInfo};

fn absent() -> RawPropQuery {
    RawPropQuery { range: None, current: None }
}

fn present(min: i32, max: i32, step: i32, default: i32, caps: i32, current: i32) -> RawPropQuery {
    RawPropQuery {
        range: Some(RawRange { min, max, step, default, caps }),
        current: Some(RawCurrent { value: current, flags: 2 }),
    }
}

#[test]
fn catalog_orders() {
    let vpa: Vec<String> = video_proc_amp_catalog().into_iter().map(|p| p.name()).collect();
    assert_eq!(
        vpa,
        vec![
            "Brightness",
            "Contrast",
            "Saturation",
            "Hue",
            "WhiteBalance",
            "WhiteBalanceComponent",
            "ColorEnable",
            "Gamma",
            "Sharpness",
            "BacklightCompensation",
            "Gain",
            "PowerlineFrequency",
            "DigitalMultiplier",
            "DigitalMultiplierLimit",
        ]
    );
    let cc: Vec<String> = camera_control_catalog().into_iter().map(|p| p.name()).collect();
    assert_eq!(cc, vec!["Exposure", "Focus", "Pan", "Tilt", "Roll", "Zoom", "Iris"]);
}

#[test]
fn catalog_identifiers() {
    let vpa = video_proc_amp_catalog();
    let ids: Vec<i32> = vpa.iter().map(|p| p.id()).collect();
    assert_eq!(ids, vec![0, 1, 3, 2, 7, 12, 6, 5, 4, 8, 9, 13, 10, 11]);
    let cc = camera_control_catalog();
    let ids: Vec<i32> = cc.iter().map(|p| p.id()).collect();
    assert_eq!(ids, vec![4, 6, 0, 1, 2, 3, 5]);
}

#[test]
fn unsupported_properties_are_omitted() {
    // Only Brightness (slot 0) and PowerlineFrequency (slot 11) answered the
    // range query; everything else must be absent from the list, not
    // present-with-empty-fields.
    let mut raw = vec![absent(); 14];
    raw[0] = present(0, 255, 1, 128, 3, 100);
    raw[11] = present(0, 3, 1, 2, 3, 2);
    let props = collect_properties(PropertyType::VideoProcAmp, &raw);
    assert_eq!(props.len(), 2);
    assert_eq!(props[0].name, "Brightness");
    assert_eq!(props[1].name, "PowerlineFrequency");
    for p in &props {
        assert!(p.min.is_some() && p.max.is_some());
    }
}

#[test]
fn collected_fields_mirror_the_answers() {
    let mut raw = vec![absent(); 14];
    raw[0] = present(-10, 10, 2, 0, 3, 4);
    let props = collect_properties(PropertyType::VideoProcAmp, &raw);
    assert_eq!(props.len(), 1);
    let p = &props[0];
    assert_eq!(p.name, "Brightness");
    assert_eq!(p.min, Some(-10));
    assert_eq!(p.max, Some(10));
    assert_eq!(p.step, Some(2));
    assert_eq!(p.default, Some(0));
    assert_eq!(p.caps, Some(3));
    assert_eq!(p.current, Some(4));
    assert_eq!(p.capabilities, Some("Manual, Auto".to_string()));
    assert_eq!(p.property_type, PropertyType::VideoProcAmp);
}

#[test]
fn failed_current_read_yields_none() {
    let mut raw = vec![absent(); 7];
    raw[1] = RawPropQuery {
        range: Some(RawRange { min: 0, max: 10, step: 1, default: 5, caps: 2 }),
        current: None,
    };
    let props = collect_properties(PropertyType::CameraControl, &raw);
    assert_eq!(props.len(), 1);
    assert_eq!(props[0].name, "Focus");
    assert_eq!(props[0].current, None);
    assert_eq!(props[0].default, Some(5));
    assert_eq!(props[0].capabilities, Some("Manual".to_string()));
    assert_eq!(props[0].property_type, PropertyType::CameraControl);
}

#[test]
fn device_info_assembly() {
    let mut vpa_raw = vec![absent(); 14];
    vpa_raw[0] = present(0, 255, 1, 128, 2, 100);
    let cc_raw = vec![absent(); 7];
    let driver = DriverInfo {
        device_desc: Some("USB Video Device".to_string()),
        manufacturer: Some("ACME".to_string()),
        driver_version: None,
        driver_date: None,
        driver_path: None,
    };
    let d = build_device_info(
        Some("HD Cam".to_string()),
        Some("\\\\?\\usb#vid_0000#1#{guid}".to_string()),
        driver,
        &vpa_raw,
        &cc_raw,
    );
    assert_eq!(d.name, Some("HD Cam".to_string()));
    assert_eq!(d.device_path, Some("\\\\?\\usb#vid_0000#1#{guid}".to_string()));
    assert_eq!(d.device_description, Some("USB Video Device".to_string()));
    assert_eq!(d.manufacturer, Some("ACME".to_string()));
    assert_eq!(d.driver_version, None);
    assert_eq!(d.video_proc_amp_properties.len(), 1);
    assert_eq!(d.camera_control_properties.len(), 0);
}

#[test]
fn device_list_items() {
    let named = DeviceInfo {
        name: Some("HD Cam".to_string()),
        device_path: Some("path0".to_string()),
        device_description: None,
        manufacturer: None,
        driver_version: None,
        driver_date: None,
        driver_path: None,
        video_proc_amp_properties: vec![],
        camera_control_properties: vec![],
    };
    let nameless = DeviceInfo {
        name: None,
        device_path: None,
        device_description: None,
        manufacturer: None,
        driver_version: None,
        driver_date: None,
        driver_path: None,
        video_proc_amp_properties: vec![],
        camera_control_properties: vec![],
    };
    let items = list_devices(&vec![named, nameless]);
    assert_eq!(items.len(), 2);
    assert_eq!(items[0].index, 0);
    assert_eq!(items[0].name, "HD Cam");
    assert_eq!(items[0].device_path, Some("path0".to_string()));
    assert_eq!(items[1].index, 1);
    assert_eq!(items[1].name, "Unknown");
    assert_eq!(items[1].device_path, None);
}
