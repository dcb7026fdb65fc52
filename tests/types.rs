use camctl::types::{CameraDevice, ControlId, ControlValue, DeviceId, FormatDescriptor};

#[test]
fn device_id_creation_and_equality() {
    let id1 = DeviceId::new("046d:085e:abc123");
    let id2 = DeviceId::new("046d:085e:abc123");
    let id3 = DeviceId::new("046d:085e:different");

    assert_eq!(id1, id2);
    assert_ne!(id1, id3);
}

#[test]
fn device_id_display() {
    let id = DeviceId::new("046d:085e:serial123");
    assert_eq!(id.to_string(), "046d:085e:serial123");
}

#[test]
fn device_id_as_str() {
    let id = DeviceId::new("test-id");
    assert_eq!(id.as_str(), "test-id");
}

#[test]
fn device_id_from_device_path_extracts_vid_pid() {
    let path = r"\\?\usb#vid_046d&pid_085e&mi_00#6&abc12345&0&0000#{guid}";
    let id = DeviceId::from_device_path(path);
    let s = id.as_str();
    assert!(s.starts_with("046d:085e:"), "got: {s}");
}

#[test]
fn device_id_same_device_produces_same_id() {
    let path = r"\\?\usb#vid_046d&pid_085e&mi_00#serialnum#{guid}";
    let id1 = DeviceId::from_device_path(path);
    let id2 = DeviceId::from_device_path(path);
    assert_eq!(id1, id2);
}

#[test]
fn device_id_different_vid_pid_produces_different_id() {
    let path1 = r"\\?\usb#vid_046d&pid_085e&mi_00#serial1#{guid}";
    let path2 = r"\\?\usb#vid_1234&pid_5678&mi_00#serial2#{guid}";
    let id1 = DeviceId::from_device_path(path1);
    let id2 = DeviceId::from_device_path(path2);
    assert_ne!(id1, id2);
}

#[test]
fn device_id_fallback_when_no_vid_pid() {
    let path = r"\\?\some_weird_device_path";
    let id = DeviceId::from_device_path(path);
    assert!(id.as_str().starts_with("unknown:"), "got: {}", id.as_str());
}

#[test]
fn device_id_fallback_when_no_serial() {
    let path = r"\\?\usb#vid_046d&pid_085e#ab#{guid}";
    let id = DeviceId::from_device_path(path);
    let s = id.as_str();
    assert!(s.starts_with("046d:085e:"), "got: {s}");
}

#[test]
fn device_id_serial_and_hash_forms_are_exact() {
    let id = DeviceId::from_device_path(r"\\?\usb#vid_046d&pid_085e&mi_00#6&abc123#{guid}");
    assert_eq!(id.as_str(), "046d:085e:6&abc123");
    let short = DeviceId::from_device_path(r"\\?\usb#vid_046d&pid_085e#ab#{guid}");
    let suffix = short.as_str().strip_prefix("046d:085e:").unwrap();
    assert_eq!(suffix.len(), 16);
    assert!(suffix.chars().all(|c| c.is_ascii_hexdigit() && !c.is_ascii_uppercase()));
    let upper = DeviceId::from_device_path(r"\\?\USB#VID_ABCD&PID_12EF#SERIAL9#{guid}");
    assert_eq!(upper.as_str(), "abcd:12ef:serial9");
}

#[test]
fn simple_hash_matches_fnv1a() {
    assert_eq!(camctl::types::simple_hash(""), 0xcbf29ce484222325);
    assert_eq!(camctl::types::simple_hash("a"), 0xaf63dc4c8601ec8c);
    let id = DeviceId::from_device_path("x");
    assert_eq!(id.as_str(), format!("unknown:{:016x}", camctl::types::simple_hash("x")));
}

#[test]
fn camera_device_construction() {
    let device = CameraDevice {
        id: DeviceId::new("046d:085e:serial"),
        name: "Logitech BRIO".to_string(),
        device_path: r"\\?\usb#vid_046d&pid_085e".to_string(),
        is_connected: true,
    };
    assert_eq!(device.name, "Logitech BRIO");
    assert!(device.is_connected);
    assert_eq!(device.id, DeviceId::new("046d:085e:serial"));
}

#[test]
fn control_value_within_range() {
    let v = ControlValue::new(50, Some(0), Some(100));
    assert_eq!(v.value(), 50);
}

#[test]
fn control_value_clamped_to_min() {
    let v = ControlValue::new(-10, Some(0), Some(100));
    assert_eq!(v.value(), 0);
}

#[test]
fn control_value_clamped_to_max() {
    let v = ControlValue::new(200, Some(0), Some(100));
    assert_eq!(v.value(), 100);
}

#[test]
fn control_value_no_bounds() {
    let v = ControlValue::new(42, None, None);
    assert_eq!(v.value(), 42);
}

#[test]
fn control_value_always_within_ordered_bounds() {
    for v in [i32::MIN, -5, 0, 7, 300, i32::MAX] {
        let c = ControlValue::new(v, Some(-3), Some(250)).value();
        assert!((-3..=250).contains(&c));
    }
    assert_eq!(ControlValue::new(5, Some(10), None).value(), 10);
    assert_eq!(ControlValue::new(5, None, Some(1)).value(), 1);
}

#[test]
fn format_descriptor_equality() {
    let f1 = FormatDescriptor { width: 1920, height: 1080, fps_milli: 30_000, pixel_format: "MJPG".to_string() };
    let f2 = FormatDescriptor { width: 1920, height: 1080, fps_milli: 30_000, pixel_format: "MJPG".to_string() };
    assert_eq!(f1, f2);
}

#[test]
fn format_descriptor_ordering_higher_res_first() {
    let hd = FormatDescriptor { width: 1920, height: 1080, fps_milli: 30_000, pixel_format: "MJPG".to_string() };
    let sd = FormatDescriptor { width: 640, height: 480, fps_milli: 30_000, pixel_format: "MJPG".to_string() };
    assert!(hd.sorts_before(&sd));
    assert!(!sd.sorts_before(&hd));
}

#[test]
fn format_descriptor_ordering_higher_fps_first_at_same_res() {
    let f60 = FormatDescriptor { width: 1920, height: 1080, fps_milli: 60_000, pixel_format: "MJPG".to_string() };
    let f30 = FormatDescriptor { width: 1920, height: 1080, fps_milli: 30_000, pixel_format: "MJPG".to_string() };
    assert!(f60.sorts_before(&f30));
    assert!(!f30.sorts_before(&f60));
}

#[test]
fn format_descriptor_ordering_by_pixel_format_last() {
    let a = FormatDescriptor { width: 640, height: 480, fps_milli: 30_000, pixel_format: "MJPG".to_string() };
    let b = FormatDescriptor { width: 640, height: 480, fps_milli: 30_000, pixel_format: "YUY2".to_string() };
    assert!(a.sorts_before(&b));
    assert!(!b.sorts_before(&a));
    assert!(!a.sorts_before(&a));
}

#[test]
fn control_id_groups_are_correct() {
    assert_eq!(ControlId::Brightness.group(), "image");
    assert_eq!(ControlId::Exposure.group(), "exposure");
    assert_eq!(ControlId::Focus.group(), "focus");
    assert_eq!(ControlId::Pan.group(), "advanced");
    assert_eq!(ControlId::Iso.group(), "camera");
}

#[test]
fn control_id_display_names() {
    assert_eq!(ControlId::WhiteBalance.display_name(), "White Balance");
    assert_eq!(ControlId::BacklightCompensation.display_name(), "Backlight Compensation");
}

#[test]
fn from_str_id_parses_all_camera_controls() {
    assert_eq!(ControlId::from_str_id("pan"), Some(ControlId::Pan));
    assert_eq!(ControlId::from_str_id("tilt"), Some(ControlId::Tilt));
    assert_eq!(ControlId::from_str_id("roll"), Some(ControlId::Roll));
    assert_eq!(ControlId::from_str_id("zoom"), Some(ControlId::Zoom));
    assert_eq!(ControlId::from_str_id("exposure"), Some(ControlId::Exposure));
    assert_eq!(ControlId::from_str_id("iris"), Some(ControlId::Iris));
    assert_eq!(ControlId::from_str_id("focus"), Some(ControlId::Focus));
}

#[test]
fn from_str_id_parses_all_procamp_controls() {
    assert_eq!(ControlId::from_str_id("brightness"), Some(ControlId::Brightness));
    assert_eq!(ControlId::from_str_id("contrast"), Some(ControlId::Contrast));
    assert_eq!(ControlId::from_str_id("hue"), Some(ControlId::Hue));
    assert_eq!(ControlId::from_str_id("saturation"), Some(ControlId::Saturation));
    assert_eq!(ControlId::from_str_id("sharpness"), Some(ControlId::Sharpness));
    assert_eq!(ControlId::from_str_id("gamma"), Some(ControlId::Gamma));
    assert_eq!(ControlId::from_str_id("color_enable"), Some(ControlId::ColorEnable));
    assert_eq!(ControlId::from_str_id("white_balance"), Some(ControlId::WhiteBalance));
    assert_eq!(ControlId::from_str_id("backlight_compensation"), Some(ControlId::BacklightCompensation));
    assert_eq!(ControlId::from_str_id("gain"), Some(ControlId::Gain));
}

#[test]
fn from_str_id_returns_none_for_unknown() {
    assert_eq!(ControlId::from_str_id("nonexistent"), None);
    assert_eq!(ControlId::from_str_id(""), None);
    assert_eq!(ControlId::from_str_id("Brightness"), None);
}

#[test]
fn from_str_id_roundtrips_with_as_id_str() {
    let all_controls = [
        ControlId::Pan,
        ControlId::Tilt,
        ControlId::Roll,
        ControlId::Zoom,
        ControlId::Exposure,
        ControlId::Iris,
        ControlId::Focus,
        ControlId::Brightness,
        ControlId::Contrast,
        ControlId::Hue,
        ControlId::Saturation,
        ControlId::Sharpness,
        ControlId::Gamma,
        ControlId::ColorEnable,
        ControlId::WhiteBalance,
        ControlId::BacklightCompensation,
        ControlId::Gain,
        ControlId::Iso,
        ControlId::Aperture,
        ControlId::ShutterSpeed,
        ControlId::ExposureCompensation,
    ];
    for control in all_controls {
        let str_id = control.as_id_str();
        assert_eq!(ControlId::from_str_id(str_id), Some(control), "roundtrip failed for {str_id}");
    }
}

#[test]
fn formats_are_sorted_and_deduplicated() {
    let f = |w: u32, h: u32, fps: u32, p: &str| FormatDescriptor { width: w, height: h, fps_milli: fps, pixel_format: p.to_string() };
    let sorted = camctl::formats::sort_and_dedup_formats(vec![
        f(640, 480, 30_000, "YUY2"),
        f(1920, 1080, 30_000, "MJPG"),
        f(640, 480, 30_000, "MJPG"),
        f(1920, 1080, 60_000, "MJPG"),
        f(640, 480, 30_000, "YUY2"),
    ]);
    assert_eq!(
        sorted,
        vec![
            f(1920, 1080, 60_000, "MJPG"),
            f(1920, 1080, 30_000, "MJPG"),
            f(640, 480, 30_000, "MJPG"),
            f(640, 480, 30_000, "YUY2"),
        ]
    );
    assert!(camctl::formats::sort_and_dedup_formats(vec![]).is_empty());
}
