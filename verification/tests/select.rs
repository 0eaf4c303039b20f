use wincamcfg::error::CamError;
use wincamcfg::select::parse_camera_selection;

#[test]
fn all_expands_to_every_index() {
    assert_eq!(parse_camera_selection("all", 5), Ok(vec![0, 1, 2, 3, 4]));
    assert_eq!(parse_camera_selection("ALL", 3), Ok(vec![0, 1, 2]));
    assert_eq!(parse_camera_selection("All", 1), Ok(vec![0]));
    assert_eq!(parse_camera_selection("all", 0), Ok(vec![]));
}

#[test]
fn single_index_in_range() {
    assert_eq!(parse_camera_selection("3", 5), Ok(vec![3]));
    assert_eq!(parse_camera_selection("0", 1), Ok(vec![0]));
    assert_eq!(parse_camera_selection("04", 5), Ok(vec![4]));
}

#[test]
fn index_out_of_range_is_device_not_found() {
    assert_eq!(parse_camera_selection("5", 5), Err(CamError::DeviceNotFound));
    assert_eq!(parse_camera_selection("0", 0), Err(CamError::DeviceNotFound));
    assert_eq!(parse_camera_selection("9999999999999999", 5), Err(CamError::DeviceNotFound));
}

#[test]
fn malformed_selector_is_invalid() {
    assert_eq!(parse_camera_selection("-1", 5), Err(CamError::InvalidSelector));
    assert_eq!(parse_camera_selection("", 5), Err(CamError::InvalidSelector));
    assert_eq!(parse_camera_selection("two", 5), Err(CamError::InvalidSelector));
    assert_eq!(parse_camera_selection("1a", 5), Err(CamError::InvalidSelector));
    assert_eq!(parse_camera_selection("1.5", 5), Err(CamError::InvalidSelector));
    // Over 16 characters.
    assert_eq!(parse_camera_selection("00000000000000000", 5), Err(CamError::InvalidSelector));
}
