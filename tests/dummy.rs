use camctl::backend::CameraBackend;
use camctl::dummy::DummyBackend;
use camctl::types::{ControlId, ControlValue, DeviceId};

#[test]
fn dummy_backend_enumerates_one_device() {
    let mut backend = DummyBackend::new();
    let devices = backend.enumerate_devices().unwrap();
    assert_eq!(devices.len(), 1);
    assert_eq!(devices[0].name, "Dummy Test Camera");
    assert_eq!(devices[0].id, DummyBackend::device_id());
    assert!(devices[0].is_connected);
}

#[test]
fn dummy_backend_device_id_is_stable() {
    let id1 = DummyBackend::device_id();
    let id2 = DummyBackend::device_id();
    assert_eq!(id1, id2);
    assert_eq!(id1.as_str(), "dummy:test:camera-001");
}

#[test]
fn dummy_backend_has_five_controls() {
    let mut backend = DummyBackend::new();
    let controls = backend.get_controls(&DummyBackend::device_id()).unwrap();
    assert_eq!(controls.len(), 5);

    let ids: Vec<&str> = controls.iter().map(|c| c.id.as_str()).collect();
    assert!(ids.contains(&"brightness"));
    assert!(ids.contains(&"contrast"));
    assert!(ids.contains(&"saturation"));
    assert!(ids.contains(&"sharpness"));
    assert!(ids.contains(&"white_balance"));
}

#[test]
fn dummy_backend_controls_have_correct_defaults() {
    let mut backend = DummyBackend::new();
    let controls = backend.get_controls(&DummyBackend::device_id()).unwrap();

    let brightness = controls.iter().find(|c| c.id == "brightness").unwrap();
    assert_eq!(brightness.default, Some(128));
    assert_eq!(brightness.current, 128);
    assert_eq!(brightness.min, Some(0));
    assert_eq!(brightness.max, Some(255));

    let wb = controls.iter().find(|c| c.id == "white_balance").unwrap();
    assert_eq!(wb.default, Some(6500));
    assert_eq!(wb.min, Some(2000));
    assert_eq!(wb.max, Some(9000));
}

#[test]
fn dummy_backend_set_control_updates_value() {
    let mut backend = DummyBackend::new();
    let id = DummyBackend::device_id();
    backend.set_control(&id, &ControlId::Brightness, ControlValue::new(200, Some(0), Some(255))).unwrap();
    let val = backend.get_control(&id, &ControlId::Brightness).unwrap();
    assert_eq!(val.value(), 200);
}

#[test]
fn dummy_backend_set_control_clamps_to_range() {
    let mut backend = DummyBackend::new();
    let id = DummyBackend::device_id();
    backend.set_control(&id, &ControlId::Brightness, ControlValue::new(999, None, None)).unwrap();
    let val = backend.get_control(&id, &ControlId::Brightness).unwrap();
    assert_eq!(val.value(), 255);
}

#[test]
fn dummy_backend_get_controls_returns_error_for_unknown_device() {
    let mut backend = DummyBackend::new();
    let result = backend.get_controls(&DeviceId::new("nonexistent"));
    assert!(result.is_err());
}

#[test]
fn dummy_backend_set_control_returns_error_for_unknown_device() {
    let mut backend = DummyBackend::new();
    let result = backend.set_control(
        &DeviceId::new("nonexistent"),
        &ControlId::Brightness,
        ControlValue::new(100, Some(0), Some(255)),
    );
    assert!(result.is_err());
}

#[test]
fn dummy_backend_rejects_unsimulated_controls() {
    let mut backend = DummyBackend::new();
    let id = DummyBackend::device_id();
    assert!(backend.get_control(&id, &ControlId::Pan).is_err());
    assert!(backend.set_control(&id, &ControlId::Pan, ControlValue::new(1, None, None)).is_err());
    assert!(backend.get_control(&DeviceId::new("x"), &ControlId::Brightness).unwrap_err().is_device_not_found());
}

#[test]
fn dummy_backend_get_formats_returns_one_format() {
    let mut backend = DummyBackend::new();
    let formats = backend.get_formats(&DummyBackend::device_id()).unwrap();
    assert_eq!(formats.len(), 1);
    assert_eq!(formats[0].pixel_format, "JPEG");
}

#[test]
fn dummy_backend_test_frame_is_valid_jpeg() {
    let frame = DummyBackend::test_frame();
    assert!(frame.len() > 4);
    assert_eq!(frame[0], 0xFF);
    assert_eq!(frame[1], 0xD8);
    assert_eq!(frame[frame.len() - 2], 0xFF);
    assert_eq!(frame[frame.len() - 1], 0xD9);
}

#[test]
fn dummy_backend_get_control_returns_updated_value_in_descriptors() {
    let mut backend = DummyBackend::new();
    let id = DummyBackend::device_id();
    backend.set_control(&id, &ControlId::Contrast, ControlValue::new(75, Some(0), Some(100))).unwrap();
    let controls = backend.get_controls(&id).unwrap();
    let contrast = controls.iter().find(|c| c.id == "contrast").unwrap();
    assert_eq!(contrast.current, 75);
}
