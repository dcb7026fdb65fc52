use camctl::backend::CameraBackend;
use camctl::canon_backend::CanonBackend;
use camctl::canon_controls::{
    get_canon_controls, translate_aperture, translate_exposure_comp, translate_iso,
    translate_shutter_speed, translate_value, translate_white_balance,
};
use camctl::canon_discovery::{discover_cameras, make_device_id};
use camctl::canon_mock::MockEdsSdk;
use camctl::eds::{
    error_description, read_c_string, CameraHandle, EdsDeviceInfo, EdsPropertyDesc, EdsSdkApi,
    CAMERA_COMMAND_EVF_MODE, CAMERA_COMMAND_TAKE_PICTURE, EDS_ERR_COMM_DISCONNECTED,
    EDS_ERR_DEVICE_BUSY, EDS_ERR_OBJECT_NOTREADY, EDS_ERR_OK, EDS_ERR_SESSION_NOT_OPEN, PROP_ID_AV,
    PROP_ID_EXPOSURE_COMPENSATION, PROP_ID_ISO_SPEED, PROP_ID_TV, PROP_ID_WHITE_BALANCE,
    STATE_EVENT_SHUTDOWN,
};
use camctl::error::CameraError;
use camctl::types::{ControlId, ControlType, ControlValue, DeviceId};

fn make_backend() -> CanonBackend<MockEdsSdk> {
    let mock = MockEdsSdk::new()
        .with_camera("Canon EOS R5", Some("SER001"))
        .with_property(0, PROP_ID_ISO_SPEED, 0x48)
        .with_property_desc(0, PROP_ID_ISO_SPEED, vec![0x48, 0x50, 0x58]);
    CanonBackend::new(mock)
}

fn blank_info() -> EdsDeviceInfo {
    EdsDeviceInfo { device_description: [0u8; 256], body_id_ex: [0u8; 256], reserved1: 0, reserved2: 0 }
}

#[test]
fn camera_handle_equality() {
    let a = CameraHandle(0);
    let b = CameraHandle(0);
    let c = CameraHandle(1);
    assert_eq!(a, b);
    assert_ne!(a, c);
}

#[test]
fn camera_handle_debug_format() {
    let h = CameraHandle(42);
    assert_eq!(format!("{h:?}"), "CameraHandle(42)");
}

#[test]
fn trait_is_object_safe() {
    fn _accepts_dyn(_sdk: &dyn EdsSdkApi) {}
}

#[test]
fn enumerate_devices_returns_canon_cameras() {
    let mut backend = make_backend();
    let devices = backend.enumerate_devices().unwrap();
    assert_eq!(devices.len(), 1);
    assert_eq!(devices[0].name, "Canon EOS R5");
    assert_eq!(devices[0].id, DeviceId::new("canon:SER001"));
    assert!(devices[0].is_connected);
}

#[test]
fn enumerate_updates_internal_map() {
    let mut backend = make_backend();
    backend.enumerate_devices().unwrap();
    let handle = backend.find_handle(&DeviceId::new("canon:SER001"));
    assert!(handle.is_ok());
}

#[test]
fn get_controls_returns_canon_controls() {
    let mut backend = make_backend();
    backend.enumerate_devices().unwrap();
    let controls = backend.get_controls(&DeviceId::new("canon:SER001")).unwrap();
    assert!(!controls.is_empty());
    let iso = controls.iter().find(|c| c.id == "canon_iso");
    assert!(iso.is_some(), "should have ISO control");
}

#[test]
fn get_control_reads_property_value() {
    let mut backend = make_backend();
    backend.enumerate_devices().unwrap();
    let value = backend.get_control(&DeviceId::new("canon:SER001"), &ControlId::Iso).unwrap();
    assert_eq!(value.value(), 0x48);
}

#[test]
fn set_control_writes_property_value() {
    let mut backend = make_backend();
    backend.enumerate_devices().unwrap();
    let result = backend.set_control(&DeviceId::new("canon:SER001"), &ControlId::Iso, ControlValue::new(0x50, None, None));
    assert!(result.is_ok());
    let value = backend.get_control(&DeviceId::new("canon:SER001"), &ControlId::Iso).unwrap();
    assert_eq!(value.value(), 0x50);
}

#[test]
fn get_formats_returns_live_view_format() {
    let mut backend = make_backend();
    backend.enumerate_devices().unwrap();
    let formats = backend.get_formats(&DeviceId::new("canon:SER001")).unwrap();
    assert_eq!(formats.len(), 1);
    assert_eq!(formats[0].pixel_format, "JPEG");
    assert_eq!(formats[0].width, 960);
}

#[test]
fn unknown_device_returns_error() {
    let mut backend = make_backend();
    backend.enumerate_devices().unwrap();
    assert!(backend.get_controls(&DeviceId::new("nonexistent")).is_err());
    assert!(backend.get_control(&DeviceId::new("nonexistent"), &ControlId::Iso).is_err());
    assert!(backend.get_formats(&DeviceId::new("nonexistent")).is_err());
}

#[test]
fn non_canon_control_returns_error() {
    let mut backend = make_backend();
    backend.enumerate_devices().unwrap();
    let result = backend.get_control(&DeviceId::new("canon:SER001"), &ControlId::Brightness);
    assert!(result.is_err());
}

#[test]
fn empty_backend_enumerates_zero_devices() {
    let mock = MockEdsSdk::new();
    let mut backend = CanonBackend::new(mock);
    let devices = backend.enumerate_devices().unwrap();
    assert!(devices.is_empty());
}

#[test]
fn re_enumeration_updates_camera_list() {
    let mock = MockEdsSdk::new().with_cameras(2);
    let mut backend = CanonBackend::new(mock);
    let first = backend.enumerate_devices().unwrap();
    assert_eq!(first.len(), 2);
    let second = backend.enumerate_devices().unwrap();
    assert_eq!(second.len(), 2);
}

#[test]
fn translates_common_iso_values() {
    assert_eq!(translate_iso(0x48), "100");
    assert_eq!(translate_iso(0x50), "200");
    assert_eq!(translate_iso(0x58), "400");
    assert_eq!(translate_iso(0x60), "800");
    assert_eq!(translate_iso(0x68), "1600");
    assert_eq!(translate_iso(0x70), "3200");
    assert_eq!(translate_iso(0x78), "6400");
    assert_eq!(translate_iso(0x80), "12800");
}

#[test]
fn translates_unknown_iso_with_hex() {
    let label = translate_iso(0xFF);
    assert!(label.contains("0xFF"), "got: {label}");
    assert_eq!(label, "ISO 0xFF");
}

#[test]
fn translates_common_aperture_values() {
    assert_eq!(translate_aperture(0x18), "f/2.0");
    assert_eq!(translate_aperture(0x20), "f/2.8");
    assert_eq!(translate_aperture(0x28), "f/4.0");
    assert_eq!(translate_aperture(0x30), "f/5.6");
    assert_eq!(translate_aperture(0x38), "f/8.0");
    assert_eq!(translate_aperture(0x40), "f/11");
}

#[test]
fn translates_common_shutter_speed_values() {
    assert_eq!(translate_shutter_speed(0x98), "1/4000");
    assert_eq!(translate_shutter_speed(0x90), "1/2000");
    assert_eq!(translate_shutter_speed(0x88), "1/1000");
    assert_eq!(translate_shutter_speed(0x80), "1/500");
    assert_eq!(translate_shutter_speed(0x78), "1/250");
    assert_eq!(translate_shutter_speed(0x68), "1/60");
    assert_eq!(translate_shutter_speed(0x38), "1\"");
}

#[test]
fn translates_white_balance_values() {
    assert_eq!(translate_white_balance(0), "Auto");
    assert_eq!(translate_white_balance(1), "Daylight");
    assert_eq!(translate_white_balance(3), "Tungsten");
}

#[test]
fn translates_exposure_compensation() {
    assert_eq!(translate_exposure_comp(0), "0");
    assert_eq!(translate_exposure_comp(8), "+1.0");
    assert_eq!(translate_exposure_comp(-8), "-1.0");
    assert_eq!(translate_exposure_comp(16), "+2.0");
}

#[test]
fn translations_of_unknown_codes() {
    assert_eq!(translate_aperture(0x7F), "f/? (0x7F)");
    assert_eq!(translate_shutter_speed(0x01), "Tv 0x1");
    assert_eq!(translate_white_balance(-3), "WB -3");
    assert_eq!(translate_iso(-1), "ISO 0xFFFFFFFF");
    assert_eq!(translate_value(0x9999, -42), "-42");
    assert_eq!(translate_value(PROP_ID_ISO_SPEED, 0x48), "100");
    assert_eq!(translate_exposure_comp(12), format!("+{:.1}", 12f64 / 8.0));
    assert_eq!(translate_exposure_comp(-3), format!("{:.1}", -3f64 / 8.0));
}

#[test]
fn get_canon_controls_returns_descriptors() {
    let mut mock = MockEdsSdk::new()
        .with_cameras(1)
        .with_property(0, PROP_ID_ISO_SPEED, 0x48)
        .with_property_desc(0, PROP_ID_ISO_SPEED, vec![0x48, 0x50, 0x58])
        .with_property(0, PROP_ID_AV, 0x20)
        .with_property_desc(0, PROP_ID_AV, vec![0x18, 0x20, 0x28])
        .with_property(0, PROP_ID_TV, 0x78)
        .with_property_desc(0, PROP_ID_TV, vec![0x68, 0x78, 0x88])
        .with_property(0, PROP_ID_WHITE_BALANCE, 0)
        .with_property_desc(0, PROP_ID_WHITE_BALANCE, vec![0, 1, 2])
        .with_property(0, PROP_ID_EXPOSURE_COMPENSATION, 0);

    let controls = get_canon_controls(&mut mock, CameraHandle(0)).unwrap();
    assert!(controls.len() >= 4, "got {} controls", controls.len());

    let iso = controls.iter().find(|c| c.id == "canon_iso").unwrap();
    assert_eq!(iso.name, "ISO");
    assert_eq!(iso.control_type, ControlType::Select);
    assert_eq!(iso.current, 0x48);
    assert!(iso.options.is_some());
    let options = iso.options.as_ref().unwrap();
    assert_eq!(options.len(), 3);
    assert_eq!(options[0].label, "100");
    assert_eq!(options[1].label, "200");
    assert_eq!(options[2].label, "400");
}

#[test]
fn controls_have_correct_groups() {
    let mut mock = MockEdsSdk::new()
        .with_cameras(1)
        .with_property(0, PROP_ID_ISO_SPEED, 0x48)
        .with_property_desc(0, PROP_ID_ISO_SPEED, vec![0x48]);
    let controls = get_canon_controls(&mut mock, CameraHandle(0)).unwrap();
    let iso = controls.iter().find(|c| c.id == "canon_iso").unwrap();
    assert_eq!(iso.group, "camera");
}

#[test]
fn exposure_compensation_is_slider_type() {
    let mut mock = MockEdsSdk::new().with_cameras(1).with_property(0, PROP_ID_EXPOSURE_COMPENSATION, 8);
    let controls = get_canon_controls(&mut mock, CameraHandle(0)).unwrap();
    let ec = controls.iter().find(|c| c.id == "canon_exposure_compensation");
    if let Some(ec) = ec {
        assert_eq!(ec.control_type, ControlType::Slider);
        assert_eq!(ec.min, Some(-24));
        assert_eq!(ec.max, Some(24));
    }
}

#[test]
fn discovers_zero_cameras() {
    let mut mock = MockEdsSdk::new();
    let result = discover_cameras(&mut mock).unwrap();
    assert!(result.is_empty());
}

#[test]
fn discovers_one_camera_with_serial() {
    let mut mock = MockEdsSdk::new().with_camera("Canon EOS R5", Some("ABC123"));
    let result = discover_cameras(&mut mock).unwrap();
    assert_eq!(result.len(), 1);
    let (handle, device) = &result[0];
    assert_eq!(handle.0, 0);
    assert_eq!(device.id, DeviceId::new("canon:ABC123"));
    assert_eq!(device.name, "Canon EOS R5");
    assert_eq!(device.device_path, "edsdk://Canon EOS R5");
    assert!(device.is_connected);
}

#[test]
fn discovers_camera_without_serial_uses_hash() {
    let mut mock = MockEdsSdk::new().with_camera("Canon EOS R6", None);
    let result = discover_cameras(&mut mock).unwrap();
    assert_eq!(result.len(), 1);
    let (_, device) = &result[0];
    assert!(device.id.as_str().starts_with("canon:"), "ID should start with 'canon:': {}", device.id.as_str());
    let suffix = device.id.as_str().strip_prefix("canon:").unwrap();
    assert_eq!(suffix.len(), 16, "hash should be 16 hex chars: {suffix}");
}

#[test]
fn discovers_multiple_cameras() {
    let mut mock = MockEdsSdk::new()
        .with_camera("Canon EOS R5", Some("SER001"))
        .with_camera("Canon EOS R6", Some("SER002"));
    let result = discover_cameras(&mut mock).unwrap();
    assert_eq!(result.len(), 2);
    assert_eq!(result[0].1.id, DeviceId::new("canon:SER001"));
    assert_eq!(result[1].1.id, DeviceId::new("canon:SER002"));
}

#[test]
fn same_camera_produces_same_id() {
    let mut mock = MockEdsSdk::new().with_camera("Canon EOS R5", Some("ABC123"));
    let r1 = discover_cameras(&mut mock).unwrap();
    let r2 = discover_cameras(&mut mock).unwrap();
    assert_eq!(r1[0].1.id, r2[0].1.id);
}

#[test]
fn different_cameras_produce_different_ids() {
    let mut mock = MockEdsSdk::new()
        .with_camera("Canon EOS R5", Some("SER001"))
        .with_camera("Canon EOS R6", Some("SER002"));
    let result = discover_cameras(&mut mock).unwrap();
    assert_ne!(result[0].1.id, result[1].1.id);
}

#[test]
fn device_id_format_is_canon_prefix() {
    let id = make_device_id("Canon EOS R5", Some("ABC123"));
    assert_eq!(id.as_str(), "canon:ABC123");
}

#[test]
fn device_id_fallback_format() {
    let id = make_device_id("Canon EOS R5", None);
    assert!(id.as_str().starts_with("canon:"));
    assert!(id.as_str().len() > "canon:".len());
    assert_eq!(id.as_str(), format!("canon:{:016x}", camctl::types::simple_hash("Canon EOS R5")));
    assert_eq!(make_device_id("Canon EOS R5", Some("")), id);
}

#[test]
fn discovery_skips_camera_whose_info_fails() {
    let mut mock = MockEdsSdk::new()
        .with_cameras(2)
        .with_error("get_device_info", CameraError::CanonSdkError("busy".to_string()));
    let result = discover_cameras(&mut mock).unwrap();
    assert_eq!(result.len(), 1);
    assert_eq!(result[0].0, CameraHandle(1));
    assert_eq!(result[0].1.id, DeviceId::new("canon:MOCK0002"));
}

#[test]
fn empty_mock_returns_no_cameras() {
    let mut mock = MockEdsSdk::new();
    let cameras = mock.camera_list().unwrap();
    assert!(cameras.is_empty());
}

#[test]
fn with_cameras_returns_correct_count() {
    let mut mock = MockEdsSdk::new().with_cameras(3);
    let cameras = mock.camera_list().unwrap();
    assert_eq!(cameras.len(), 3);
}

#[test]
fn with_camera_returns_device_info() {
    let mut mock = MockEdsSdk::new().with_camera("Canon EOS R5", Some("ABC123"));
    let cameras = mock.camera_list().unwrap();
    let info = mock.get_device_info(cameras[0]).unwrap();
    assert_eq!(info.model_name(), "Canon EOS R5");
    assert_eq!(info.serial_number(), Some("ABC123".to_string()));
}

#[test]
fn camera_without_serial_returns_none() {
    let mut mock = MockEdsSdk::new().with_camera("Canon EOS R6", None);
    let cameras = mock.camera_list().unwrap();
    let info = mock.get_device_info(cameras[0]).unwrap();
    assert_eq!(info.model_name(), "Canon EOS R6");
    assert_eq!(info.serial_number(), None);
}

#[test]
fn session_open_and_close() {
    let mut mock = MockEdsSdk::new().with_cameras(1);
    let handle = CameraHandle(0);
    mock.open_session(handle).unwrap();
    mock.close_session(handle).unwrap();
}

#[test]
fn property_read_write() {
    let mut mock = MockEdsSdk::new().with_cameras(1).with_property(0, PROP_ID_ISO_SPEED, 0x48);
    let handle = CameraHandle(0);
    let value = mock.get_property(handle, PROP_ID_ISO_SPEED).unwrap();
    assert_eq!(value, 0x48);
    mock.set_property(handle, PROP_ID_ISO_SPEED, 0x50).unwrap();
    let updated = mock.get_property(handle, PROP_ID_ISO_SPEED).unwrap();
    assert_eq!(updated, 0x50);
}

#[test]
fn property_desc_returns_configured_values() {
    let mut mock = MockEdsSdk::new().with_cameras(1).with_property_desc(0, PROP_ID_ISO_SPEED, vec![0x48, 0x50, 0x58]);
    let handle = CameraHandle(0);
    let desc = mock.get_property_desc(handle, PROP_ID_ISO_SPEED).unwrap();
    assert_eq!(desc.num_elements, 3);
    assert_eq!(desc.prop_desc, vec![0x48, 0x50, 0x58]);
}

#[test]
fn live_view_requires_start() {
    let mut mock = MockEdsSdk::new().with_cameras(1).with_live_view_frame(vec![0xFF, 0xD8, 0xFF, 0xD9]);
    let handle = CameraHandle(0);
    assert!(mock.download_evf_image(handle).is_err());
    mock.start_live_view(handle).unwrap();
    let frame = mock.download_evf_image(handle).unwrap();
    assert_eq!(frame, vec![0xFF, 0xD8, 0xFF, 0xD9]);
    mock.stop_live_view(handle).unwrap();
    assert!(mock.download_evf_image(handle).is_err());
}

#[test]
fn error_injection_fires_once() {
    let mut mock = MockEdsSdk::new().with_cameras(1).with_error("camera_list", CameraError::CanonSdkError("injected".to_string()));
    assert!(mock.camera_list().is_err());
    assert!(mock.camera_list().is_ok());
}

#[test]
fn get_event_increments_counter() {
    let mut mock = MockEdsSdk::new();
    assert_eq!(mock.events_processed(), 0);
    mock.get_event().unwrap();
    mock.get_event().unwrap();
    assert_eq!(mock.events_processed(), 2);
}

#[test]
fn invalid_camera_handle_returns_error() {
    let mut mock = MockEdsSdk::new();
    assert!(mock.get_device_info(CameraHandle(99)).is_err());
}

#[test]
fn unset_property_returns_error() {
    let mut mock = MockEdsSdk::new().with_cameras(1);
    let result = mock.get_property(CameraHandle(0), 0xFFFF);
    assert!(result.is_err());
}

#[test]
fn error_codes_have_correct_values() {
    assert_eq!(EDS_ERR_OK, 0);
    assert_eq!(EDS_ERR_DEVICE_BUSY, 0x00000081);
    assert_eq!(EDS_ERR_SESSION_NOT_OPEN, 0x00002003);
    assert_eq!(EDS_ERR_OBJECT_NOTREADY, 0x0000A104);
    assert_eq!(EDS_ERR_COMM_DISCONNECTED, 0x000000C1);
}

#[test]
fn property_ids_have_correct_values() {
    assert_eq!(PROP_ID_ISO_SPEED, 0x00000402);
    assert_eq!(PROP_ID_AV, 0x00000405);
    assert_eq!(PROP_ID_TV, 0x00000404);
    assert_eq!(PROP_ID_EXPOSURE_COMPENSATION, 0x00000406);
    assert_eq!(PROP_ID_WHITE_BALANCE, 0x00000403);
}

#[test]
fn command_constants_are_defined() {
    assert_eq!(CAMERA_COMMAND_EVF_MODE, 0x00000002);
    assert_eq!(CAMERA_COMMAND_TAKE_PICTURE, 0x00000000);
}

#[test]
fn state_event_shutdown_is_defined() {
    assert_eq!(STATE_EVENT_SHUTDOWN, 0x00000001);
}

#[test]
fn eds_device_info_model_name_reads_c_string() {
    let mut info = blank_info();
    let name = b"Canon EOS R5";
    info.device_description[..name.len()].copy_from_slice(name);
    assert_eq!(info.model_name(), "Canon EOS R5");
}

#[test]
fn eds_device_info_serial_number_reads_c_string() {
    let mut info = blank_info();
    let serial = b"0123456789";
    info.body_id_ex[..serial.len()].copy_from_slice(serial);
    assert_eq!(info.serial_number(), Some("0123456789".to_string()));
}

#[test]
fn eds_device_info_empty_serial_returns_none() {
    let info = blank_info();
    assert_eq!(info.serial_number(), None);
}

#[test]
fn error_description_returns_human_readable_text() {
    assert_eq!(error_description(EDS_ERR_OK), "success");
    assert_eq!(error_description(EDS_ERR_DEVICE_BUSY), "camera is busy — retry shortly");
    assert_eq!(error_description(EDS_ERR_COMM_DISCONNECTED), "camera disconnected");
    assert_eq!(error_description(0xDEADBEEF), "unknown EDSDK error");
}

#[test]
fn eds_property_desc_stores_values() {
    let desc = EdsPropertyDesc { num_elements: 3, prop_desc: vec![100, 200, 400] };
    assert_eq!(desc.num_elements, 3);
    assert_eq!(desc.prop_desc, vec![100, 200, 400]);
}

#[test]
fn read_c_string_handles_empty_buffer() {
    let buf = [0u8; 10];
    assert_eq!(read_c_string(&buf), "");
}

#[test]
fn read_c_string_handles_no_null_terminator() {
    let buf = [b'A', b'B', b'C'];
    assert_eq!(read_c_string(&buf), "ABC");
}

#[test]
fn read_c_string_stops_at_first_nul_and_replaces_invalid_bytes() {
    assert_eq!(read_c_string(&[b'A', 0, b'B']), "A");
    assert_eq!(read_c_string(&[0xFF, b'x']), "\u{FFFD}x");
}

#[test]
fn watch_hotplug_succeeds() {
    let mut backend = make_backend();
    let result = backend.watch_hotplug(Box::new(|_| {}));
    assert!(result.is_ok());
}
