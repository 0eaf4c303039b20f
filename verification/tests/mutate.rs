use wincamcfg::catalog::PropertyType;
use wincamcfg::error::CamError;
use wincamcfg::model::{DeviceInfo, PropertyInfo};
use wincamcfg::mutate::{reset_all_properties, set_property, set_property_to_default};

fn prop(
    name: &str,
    group: PropertyType,
    min: i32,
    max: i32,
    default: i32,
    caps: i32,
) -> PropertyInfo {
    PropertyInfo {
        name: name.to_string(),
        min: Some(min),
        max: Some(max),
        step: Some(1),
        default: Some(default),
        caps: Some(caps),
        current: Some(default),
        capabilities: None,
        property_type: group,
    }
}

fn hd_cam() -> DeviceInfo {
    DeviceInfo {
        name: Some("HD Cam".to_string()),
        device_path: Some("\\\\?\\usb#vid_046d&pid_082d#5&1a2b3c#{guid}".to_string()),
        device_description: None,
        manufacturer: None,
        driver_version: None,
        driver_date: None,
        driver_path: None,
        video_proc_amp_properties: vec![
            prop("Brightness", PropertyType::VideoProcAmp, 0, 255, 128, 2),
            prop("PowerlineFrequency", PropertyType::VideoProcAmp, 0, 3, 2, 3),
        ],
        camera_control_properties: vec![
            prop("Zoom", PropertyType::CameraControl, 100, 400, 100, 2),
        ],
    }
}

#[test]
fn set_manual_label_value() {
    let device = hd_cam();
    let req = set_property(&device, "PowerlineFrequency", "60Hz").unwrap();
    assert_eq!(req.device_path, "\\\\?\\usb#vid_046d&pid_082d#5&1a2b3c#{guid}");
    assert_eq!(req.property_name, "PowerlineFrequency");
    assert_eq!(req.property_type, PropertyType::VideoProcAmp);
    assert_eq!(req.property_id, 13);
    assert_eq!(req.value, 2);
    // Manual-mode flag of the image-processing group.
    assert_eq!(req.flags, 2);
}

#[test]
fn set_auto_with_case_insensitive_name() {
    let device = hd_cam();
    let req = set_property(&device, "powerlinefrequency", "Auto").unwrap();
    assert_eq!(req.property_type, PropertyType::VideoProcAmp);
    assert_eq!(req.property_id, 13);
    // Automatic-mode flag of the image-processing group.
    assert_eq!(req.flags, 1);
}

#[test]
fn set_rejects_out_of_range() {
    let device = hd_cam();
    assert_eq!(
        set_property(&device, "PowerlineFrequency", "99"),
        Err(CamError::OutOfRange { value: 99, min: 0, max: 3 })
    );
    // One above the reported maximum: the error carries the attempted value
    // and the reported bounds.
    assert_eq!(
        set_property(&device, "Brightness", "256"),
        Err(CamError::OutOfRange { value: 256, min: 0, max: 255 })
    );
    assert_eq!(
        set_property(&device, "Brightness", "-1"),
        Err(CamError::OutOfRange { value: -1, min: 0, max: 255 })
    );
    // An automatic-mode request skips range validation.
    assert!(set_property(&device, "PowerlineFrequency", "auto").is_ok());
}

#[test]
fn set_camera_control_group() {
    let device = hd_cam();
    let req = set_property(&device, "Zoom", "250").unwrap();
    assert_eq!(req.property_type, PropertyType::CameraControl);
    assert_eq!(req.property_id, 3);
    assert_eq!(req.value, 250);
    assert_eq!(req.flags, 2);
}

#[test]
fn set_error_cases() {
    let device = hd_cam();
    // Not on this device.
    assert_eq!(set_property(&device, "Focus", "10"), Err(CamError::PropertyNotFound));
    // Malformed property names.
    assert_eq!(set_property(&device, "Bright-ness", "10"), Err(CamError::InvalidPropertyName));
    let long = "a".repeat(65);
    assert_eq!(set_property(&device, &long, "10"), Err(CamError::InvalidPropertyName));
    // Parse failures pass through.
    assert_eq!(set_property(&device, "Brightness", "bright"), Err(CamError::InvalidValue));
    assert_eq!(set_property(&device, "Brightness", "1+1"), Err(CamError::InvalidInput));
    // A device that never reported a stable path cannot be re-resolved.
    let mut pathless = hd_cam();
    pathless.device_path = None;
    assert_eq!(set_property(&pathless, "Brightness", "10"), Err(CamError::DeviceNotFound));
    // A property list entry whose name is not in the catalog cannot be
    // mapped to a driver identifier.
    let mut odd = hd_cam();
    odd.video_proc_amp_properties.push(prop("Glow", PropertyType::VideoProcAmp, 0, 1, 0, 2));
    assert_eq!(set_property(&odd, "Glow", "1"), Err(CamError::UnknownProperty));
}

#[test]
fn default_uses_cached_default_in_manual_mode() {
    let device = hd_cam();
    let req = set_property_to_default(&device, "PowerlineFrequency").unwrap();
    assert_eq!(req.value, 2);
    assert_eq!(req.flags, 2);
    let req = set_property_to_default(&device, "zoom").unwrap();
    assert_eq!(req.value, 100);
    assert_eq!(req.property_type, PropertyType::CameraControl);
    assert_eq!(set_property_to_default(&device, "Focus"), Err(CamError::PropertyNotFound));
}

#[test]
fn default_out_of_range_is_rejected() {
    let mut device = hd_cam();
    // A default the device itself reports outside its own range.
    device.video_proc_amp_properties[0].default = Some(300);
    assert_eq!(
        set_property_to_default(&device, "Brightness"),
        Err(CamError::OutOfRange { value: 300, min: 0, max: 255 })
    );
}

#[test]
fn reset_all_plans_one_write_per_property() {
    let device = hd_cam();
    let plans = reset_all_properties(&device);
    assert_eq!(plans.len(), 3);
    assert_eq!(plans[0].0, "Brightness");
    assert_eq!(plans[1].0, "PowerlineFrequency");
    assert_eq!(plans[2].0, "Zoom");
    let defaults: Vec<i32> = plans.iter().map(|p| p.1.as_ref().unwrap().value).collect();
    assert_eq!(defaults, vec![128, 2, 100]);
    for (_, plan) in &plans {
        assert_eq!(plan.as_ref().unwrap().flags, 2);
    }
}

#[test]
fn reset_all_keeps_going_past_a_failing_property() {
    let mut device = hd_cam();
    // Break the middle property: its default lies outside its own range.
    device.video_proc_amp_properties[1].default = Some(9);
    let plans = reset_all_properties(&device);
    assert_eq!(plans.len(), 3);
    assert!(plans[0].1.is_ok());
    assert_eq!(
        plans[1].1,
        Err(CamError::OutOfRange { value: 9, min: 0, max: 3 })
    );
    assert!(plans[2].1.is_ok());
}

#[test]
fn reset_all_on_a_wide_device() {
    // A device supporting all 21 catalog properties plans exactly 21 writes,
    // each with that property's own cached default.
    let vpa_names = [
        "Brightness",
        "Contrast",
        "Saturation",
        "Hue",
        "WhiteBalance",
        "WhiteBalanceComponent",
        "ColorEnable",
        "Gamma",
        "Sharpness",
        "BacklightCompensation",
        "Gain",
        "PowerlineFrequency",
        "DigitalMultiplier",
        "DigitalMultiplierLimit",
    ];
    let cc_names = ["Exposure", "Focus", "Pan", "Tilt", "Roll", "Zoom", "Iris"];
    let mut device = hd_cam();
    device.video_proc_amp_properties = vpa_names
        .iter()
        .enumerate()
        .map(|(i, n)| prop(n, PropertyType::VideoProcAmp, -1000, 1000, i as i32, 2))
        .collect();
    device.camera_control_properties = cc_names
        .iter()
        .enumerate()
        .map(|(i, n)| prop(n, PropertyType::CameraControl, -1000, 1000, 100 + i as i32, 2))
        .collect();
    let plans = reset_all_properties(&device);
    assert_eq!(plans.len(), 21);
    for (i, (name, plan)) in plans.iter().enumerate() {
        let req = plan.as_ref().unwrap();
        if i < 14 {
            assert_eq!(name, vpa_names[i]);
            assert_eq!(req.value, i as i32);
        } else {
            assert_eq!(name, cc_names[i - 14]);
            assert_eq!(req.value, 100 + (i - 14) as i32);
        }
    }
}
