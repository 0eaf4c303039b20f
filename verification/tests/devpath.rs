use wincamcfg::devpath::{indirect_string_fallback, parse_device_instance_id};

#[test]
fn instance_id_from_typical_path() {
    let path = "\\\\?\\usb#vid_046d&pid_082d&mi_00#6&2e8e1f8&0&0000#{65e8773d-8f56-11d0-a3b9-00a0c9223196}\\global";
    assert_eq!(
        parse_device_instance_id(path),
        Some("USB\\VID_046D&PID_082D&MI_00\\6&2e8e1f8&0&0000".to_string())
    );
}

#[test]
fn instance_id_upper_cases_marker_and_hardware_id() {
    let path = "\\\\?\\USB#Vid_0123&Pid_4567#serial42#{guid}";
    assert_eq!(parse_device_instance_id(path), Some("USB\\VID_0123&PID_4567\\serial42".to_string()));
}

#[test]
fn instance_id_missing_pieces() {
    // No usb marker at all.
    assert_eq!(parse_device_instance_id("\\\\?\\pci#ven_8086#1#{guid}"), None);
    // No interface-class brace.
    assert_eq!(parse_device_instance_id("\\\\?\\usb#vid_046d#serial"), None);
    // No separator between hardware id and instance id.
    assert_eq!(parse_device_instance_id("\\\\?\\usb#vid_046d#{guid}"), None);
}

#[test]
fn indirect_fallback_takes_text_after_last_semicolon() {
    assert_eq!(
        indirect_string_fallback("@oem16.inf,%pid_082d%;HD Pro Webcam C920"),
        "HD Pro Webcam C920"
    );
    assert_eq!(indirect_string_fallback("a;b;c"), "c");
    assert_eq!(indirect_string_fallback("trailing;"), "");
}

#[test]
fn indirect_fallback_keeps_string_without_semicolon() {
    assert_eq!(indirect_string_fallback("HD Pro Webcam C920"), "HD Pro Webcam C920");
    assert_eq!(indirect_string_fallback(""), "");
}
