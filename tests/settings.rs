use camctl::apply::{apply_saved_settings, parse_control_id, reset_to_defaults};
use camctl::backend::CameraBackend;
use camctl::dummy::DummyBackend;
use camctl::error::CameraError;
use camctl::settings::{CameraSettings, SettingsStore};
use camctl::tray::{menu_item_defs, MENU_ID_APP_SETTINGS, MENU_ID_QUIT, MENU_ID_SHOW_HIDE};
use camctl::types::{
    CameraDevice, ControlDescriptor, ControlFlags, ControlId, ControlType, ControlValue, DeviceId,
    FormatDescriptor, HotplugEvent,
};

struct MockBackend {
    devices: Vec<CameraDevice>,
    controls: Vec<ControlDescriptor>,
    set_calls: Vec<(String, String, i32)>,
    fail_controls: Vec<String>,
}

impl MockBackend {
    fn new(controls: Vec<ControlDescriptor>) -> Self {
        Self {
            devices: vec![CameraDevice {
                id: DeviceId::new("test-device"),
                name: "Test Camera".to_string(),
                device_path: "test-path".to_string(),
                is_connected: true,
            }],
            controls,
            set_calls: Vec::new(),
            fail_controls: Vec::new(),
        }
    }

    fn with_failing_controls(mut self, fails: Vec<String>) -> Self {
        self.fail_controls = fails;
        self
    }

    fn owns(&self, id: &DeviceId) -> bool {
        self.devices.iter().any(|d| &d.id == id)
    }
}

impl CameraBackend for MockBackend {
    fn watch_hotplug<F: Fn(HotplugEvent) + Clone + Send + 'static>(&mut self, _callback: F) -> Result<(), CameraError> {
        Ok(())
    }

    fn enumerate_devices(&mut self) -> Result<Vec<CameraDevice>, CameraError> {
        Ok(self.devices.iter().map(|d| d.clone()).collect())
    }

    fn get_controls(&mut self, id: &DeviceId) -> Result<Vec<ControlDescriptor>, CameraError> {
        if self.owns(id) {
            Ok(self.controls.iter().map(|c| c.clone()).collect())
        } else {
            Err(CameraError::DeviceNotFound(id.as_str().to_string()))
        }
    }

    fn get_control(&mut self, _id: &DeviceId, _control: &ControlId) -> Result<ControlValue, CameraError> {
        Ok(ControlValue::new(128, Some(0), Some(255)))
    }

    fn set_control(&mut self, id: &DeviceId, control: &ControlId, value: ControlValue) -> Result<(), CameraError> {
        if !self.owns(id) {
            return Err(CameraError::DeviceNotFound(id.as_str().to_string()));
        }
        let control_str = control.as_id_str().to_string();
        if self.fail_controls.contains(&control_str) {
            return Err(CameraError::ControlWrite(format!("simulated failure for {control_str}")));
        }
        self.set_calls.push((id.as_str().to_string(), control_str, value.value()));
        Ok(())
    }

    fn get_formats(&mut self, _id: &DeviceId) -> Result<Vec<FormatDescriptor>, CameraError> {
        Ok(vec![])
    }
}

fn make_control(id: &str, name: &str, max: i32, default: Option<i32>, current: i32) -> ControlDescriptor {
    ControlDescriptor {
        id: id.to_string(),
        name: name.to_string(),
        control_type: ControlType::Slider,
        group: "image".to_string(),
        min: Some(0),
        max: Some(max),
        step: Some(1),
        default,
        current,
        flags: ControlFlags { supports_auto: false, is_auto_enabled: false, is_read_only: false },
        options: None,
        supported: true,
    }
}

fn make_brightness_control(default: Option<i32>) -> ControlDescriptor {
    make_control("brightness", "Brightness", 255, default, 128)
}

fn make_contrast_control(default: Option<i32>) -> ControlDescriptor {
    make_control("contrast", "Contrast", 100, default, 50)
}

#[test]
fn apply_saved_settings_calls_set_control_for_each_saved_value() {
    let mut backend = MockBackend::new(vec![make_brightness_control(Some(128)), make_contrast_control(Some(50))]);
    let mut store = SettingsStore::new();
    store.set_control("test-device", "Camera", "brightness", 200);
    store.set_control("test-device", "Camera", "contrast", 80);
    let applied = apply_saved_settings(&mut backend, &store, "test-device");
    assert_eq!(applied.len(), 2);
    assert_eq!(backend.set_calls.len(), 2);
}

#[test]
fn apply_saved_settings_skips_unknown_controls() {
    let mut backend = MockBackend::new(vec![make_brightness_control(Some(128))]);
    let mut store = SettingsStore::new();
    store.set_control("test-device", "Camera", "brightness", 200);
    store.set_control("test-device", "Camera", "nonexistent_control", 42);
    let applied = apply_saved_settings(&mut backend, &store, "test-device");
    assert_eq!(applied.len(), 1);
    assert_eq!(applied[0].0, "brightness");
}

#[test]
fn apply_saved_settings_does_nothing_when_no_saved_settings() {
    let mut backend = MockBackend::new(vec![make_brightness_control(Some(128))]);
    let store = SettingsStore::new();
    let applied = apply_saved_settings(&mut backend, &store, "test-device");
    assert!(applied.is_empty());
    assert!(backend.set_calls.is_empty());
}

#[test]
fn apply_saved_settings_continues_on_individual_control_failure() {
    let mut backend = MockBackend::new(vec![make_brightness_control(Some(128)), make_contrast_control(Some(50))])
        .with_failing_controls(vec!["brightness".to_string()]);
    let mut store = SettingsStore::new();
    store.set_control("test-device", "Camera", "brightness", 200);
    store.set_control("test-device", "Camera", "contrast", 80);
    let applied = apply_saved_settings(&mut backend, &store, "test-device");
    assert_eq!(applied.len(), 1);
    assert_eq!(applied[0].0, "contrast");
}

#[test]
fn apply_on_hotplug_skips_unknown_controls() {
    let mut backend = MockBackend::new(vec![make_brightness_control(Some(128))]);
    let mut store = SettingsStore::new();
    store.set_control("test-device", "Cam", "brightness", 200);
    store.set_control("test-device", "Cam", "unknown_ctrl", 42);
    let applied = apply_saved_settings(&mut backend, &store, "test-device");
    assert_eq!(applied, vec![("brightness".to_string(), 200)]);
    assert_eq!(backend.set_calls, vec![("test-device".to_string(), "brightness".to_string(), 200)]);
}

#[test]
fn apply_clamps_saved_value_to_descriptor_range() {
    let mut backend = MockBackend::new(vec![make_contrast_control(Some(50))]);
    let mut store = SettingsStore::new();
    store.set_control("test-device", "Cam", "contrast", 500);
    let applied = apply_saved_settings(&mut backend, &store, "test-device");
    assert_eq!(applied, vec![("contrast".to_string(), 500)]);
    assert_eq!(backend.set_calls[0].2, 100);
}

#[test]
fn reset_to_defaults_sets_all_controls_to_hardware_defaults() {
    let mut backend = MockBackend::new(vec![make_brightness_control(Some(128)), make_contrast_control(Some(50))]);
    let mut store = SettingsStore::new();
    let reset = reset_to_defaults(&mut backend, &mut store, "test-device").unwrap();
    assert_eq!(reset, vec![("brightness".to_string(), 128), ("contrast".to_string(), 50)]);
    assert_eq!(backend.set_calls.len(), 2);
}

#[test]
fn reset_to_defaults_returns_error_for_unknown_device() {
    let mut backend = MockBackend::new(vec![make_brightness_control(Some(128))]);
    let id = DeviceId::new("nonexistent");
    let result = backend.get_controls(&id);
    assert!(result.is_err());
    let mut store = SettingsStore::new();
    store.set_control("nonexistent", "Cam", "brightness", 1);
    assert!(reset_to_defaults(&mut backend, &mut store, "nonexistent").is_err());
    assert!(store.get_camera("nonexistent").is_some());
}

#[test]
fn reset_to_defaults_skips_controls_without_defaults() {
    let mut backend = MockBackend::new(vec![make_brightness_control(Some(128)), make_contrast_control(None)]);
    let mut store = SettingsStore::new();
    let reset = reset_to_defaults(&mut backend, &mut store, "test-device").unwrap();
    assert_eq!(reset.len(), 1);
}

#[test]
fn reset_to_defaults_clears_saved_settings_for_device() {
    let mut store = SettingsStore::new();
    store.set_control("test-device", "Camera", "brightness", 200);
    assert!(store.get_camera("test-device").is_some());
    store.remove_camera("test-device");
    assert!(store.get_camera("test-device").is_none());
    let mut backend = DummyBackend::new();
    store.set_control("dummy:test:camera-001", "Dummy", "brightness", 10);
    let reset = reset_to_defaults(&mut backend, &mut store, "dummy:test:camera-001").unwrap();
    assert_eq!(reset.len(), 5);
    assert!(store.get_camera("dummy:test:camera-001").is_none());
}

#[test]
fn settings_round_trip_through_snapshot() {
    let mut store = SettingsStore::new();
    store.set_control("dev1", "Cam", "brightness", 150);
    assert!(store.take_dirty());
    assert!(!store.take_dirty());
    let reloaded = SettingsStore::from_file(store.snapshot());
    let cam = reloaded.get_camera("dev1").unwrap();
    assert_eq!(cam.name, "Cam");
    assert_eq!(cam.controls.iter().find(|(k, _)| k == "brightness").map(|(_, v)| *v), Some(150));
}

#[test]
fn set_control_overwrites_and_refreshes_name() {
    let mut store = SettingsStore::new();
    store.set_control("dev1", "Old", "brightness", 1);
    store.set_control("dev1", "New", "brightness", 2);
    store.set_control("dev2", "Other", "gain", 3);
    let cam = store.get_camera("dev1").unwrap();
    assert_eq!(cam.name, "New");
    assert_eq!(cam.controls, vec![("brightness".to_string(), 2)]);
    assert_eq!(store.get_camera("dev2").unwrap().controls, vec![("gain".to_string(), 3)]);
}

#[test]
fn camera_settings_default_is_empty() {
    let settings = CameraSettings::default();
    assert_eq!(settings.name, "");
    assert!(settings.controls.is_empty());
}

#[test]
fn parse_control_id_accepts_valid_strings() {
    assert_eq!(parse_control_id("brightness").unwrap(), ControlId::Brightness);
    assert_eq!(parse_control_id("exposure").unwrap(), ControlId::Exposure);
    assert_eq!(parse_control_id("white_balance").unwrap(), ControlId::WhiteBalance);
}

#[test]
fn parse_control_id_rejects_unknown_strings() {
    let err = parse_control_id("nonexistent").unwrap_err();
    assert!(err.contains("Unknown control"));
    assert!(err.contains("nonexistent"));
    assert_eq!(err, "Unknown control: 'nonexistent'");
}

#[test]
fn parse_control_id_rejects_empty_string() {
    assert!(parse_control_id("").is_err());
}

#[test]
fn parse_control_id_error_includes_control_name() {
    let err = parse_control_id("fake_control").unwrap_err();
    assert!(err.contains("fake_control"), "error should include the attempted control name: {err}");
}

#[test]
fn menu_item_defs_contains_correct_ids_and_labels() {
    let defs = menu_item_defs();
    assert_eq!(defs.len(), 3);
    assert_eq!(defs[0], (MENU_ID_SHOW_HIDE, "Show/Hide"));
    assert_eq!(defs[1], (MENU_ID_APP_SETTINGS, "App Settings"));
    assert_eq!(defs[2], (MENU_ID_QUIT, "Exit"));
}

#[test]
fn menu_has_show_hide_item() {
    let defs = menu_item_defs();
    let item = defs.iter().find(|(id, _)| *id == MENU_ID_SHOW_HIDE);
    assert!(item.is_some());
    assert_eq!(item.unwrap().1, "Show/Hide");
}

#[test]
fn menu_has_app_settings_item() {
    let defs = menu_item_defs();
    let item = defs.iter().find(|(id, _)| *id == MENU_ID_APP_SETTINGS);
    assert!(item.is_some());
    assert_eq!(item.unwrap().1, "App Settings");
}

#[test]
fn menu_has_quit_item() {
    let defs = menu_item_defs();
    let quit = defs.iter().find(|(id, _)| *id == MENU_ID_QUIT);
    assert!(quit.is_some());
    assert_eq!(quit.unwrap().1, "Exit");
}

#[test]
fn mock_backend_enumerate_returns_devices() {
    let mut backend = MockBackend::new(vec![]);
    backend.devices[0].id = DeviceId::new("test:id");
    let devices = backend.enumerate_devices().unwrap();
    assert_eq!(devices.len(), 1);
    assert_eq!(devices[0].name, "Test Camera");
}

#[test]
fn mock_backend_get_control_returns_error_for_unknown() {
    let mut backend = DummyBackend::new();
    let result = backend.get_control(&DeviceId::new("unknown"), &ControlId::Brightness);
    assert!(result.is_err());
}

#[test]
fn mock_backend_watch_hotplug_accepts_send_callback() {
    let mut backend = MockBackend::new(vec![]);
    let result = backend.watch_hotplug(Box::new(|_event| {}));
    assert!(result.is_ok());
}

#[test]
fn dummy_backend_watch_hotplug_succeeds() {
    let mut backend = DummyBackend::new();
    let result = backend.watch_hotplug(Box::new(|_| {}));
    assert!(result.is_ok());
}

type CallbackSlot = std::sync::Arc<std::sync::Mutex<Option<Box<dyn Fn(HotplugEvent) + Send>>>>;

struct MockHotplugBackend {
    slot: CallbackSlot,
}

struct FailingHotplugBackend;

impl CameraBackend for MockHotplugBackend {
    fn watch_hotplug<F: Fn(HotplugEvent) + Clone + Send + 'static>(&mut self, callback: F) -> Result<(), CameraError> {
        *self.slot.lock().unwrap() = Some(Box::new(callback));
        Ok(())
    }

    fn enumerate_devices(&mut self) -> Result<Vec<CameraDevice>, CameraError> {
        Ok(vec![])
    }

    fn get_controls(&mut self, id: &DeviceId) -> Result<Vec<ControlDescriptor>, CameraError> {
        Err(CameraError::DeviceNotFound(id.as_str().to_string()))
    }

    fn get_control(&mut self, id: &DeviceId, _control: &ControlId) -> Result<ControlValue, CameraError> {
        Err(CameraError::DeviceNotFound(id.as_str().to_string()))
    }

    fn set_control(&mut self, _id: &DeviceId, _control: &ControlId, _value: ControlValue) -> Result<(), CameraError> {
        Ok(())
    }

    fn get_formats(&mut self, _id: &DeviceId) -> Result<Vec<FormatDescriptor>, CameraError> {
        Ok(vec![])
    }
}

impl CameraBackend for FailingHotplugBackend {
    fn watch_hotplug<F: Fn(HotplugEvent) + Clone + Send + 'static>(&mut self, _callback: F) -> Result<(), CameraError> {
        Err(CameraError::Hotplug("device manager unavailable".to_string()))
    }

    fn enumerate_devices(&mut self) -> Result<Vec<CameraDevice>, CameraError> {
        Ok(vec![])
    }

    fn get_controls(&mut self, id: &DeviceId) -> Result<Vec<ControlDescriptor>, CameraError> {
        Err(CameraError::DeviceNotFound(id.as_str().to_string()))
    }

    fn get_control(&mut self, id: &DeviceId, _control: &ControlId) -> Result<ControlValue, CameraError> {
        Err(CameraError::DeviceNotFound(id.as_str().to_string()))
    }

    fn set_control(&mut self, _id: &DeviceId, _control: &ControlId, _value: ControlValue) -> Result<(), CameraError> {
        Ok(())
    }

    fn get_formats(&mut self, _id: &DeviceId) -> Result<Vec<FormatDescriptor>, CameraError> {
        Ok(vec![])
    }
}

#[test]
fn hotplug_bridge_registers_callback_on_connected() {
    let slot: CallbackSlot = std::sync::Arc::new(std::sync::Mutex::new(None));
    let mut backend = MockHotplugBackend { slot: slot.clone() };
    backend.watch_hotplug(Box::new(|_event| {})).expect("watch_hotplug should succeed");
    assert!(slot.lock().unwrap().is_some(), "callback should be registered");
}

#[test]
fn hotplug_bridge_logs_error_on_watch_failure() {
    let mut backend = FailingHotplugBackend;
    let result = backend.watch_hotplug(Box::new(|_| {}));
    assert!(result.is_err());
    assert!(result.unwrap_err().to_string().contains("device manager unavailable"));
}

#[test]
fn set_control_with_valid_device_and_control_succeeds() {
    let mut backend = MockBackend::new(vec![make_brightness_control(Some(128))]);
    let result = camctl::apply::set_camera_control(&mut backend, "test-device", "brightness", 300);
    assert!(result.is_ok());
    assert_eq!(backend.set_calls, vec![("test-device".to_string(), "brightness".to_string(), 255)]);
}

#[test]
fn set_control_with_invalid_device_returns_error() {
    let mut backend = MockBackend::new(vec![make_brightness_control(Some(128))]);
    let err = camctl::apply::set_camera_control(&mut backend, "nope", "brightness", 1).unwrap_err();
    assert_eq!(err, "device not found: nope");
    let unknown = camctl::apply::set_camera_control(&mut backend, "test-device", "bogus", 1).unwrap_err();
    assert_eq!(unknown, "Unknown control: 'bogus'");
    let missing = camctl::apply::set_camera_control(&mut backend, "test-device", "gain", 1).unwrap_err();
    assert_eq!(missing, "Control 'Gain' not supported on this device");
    assert!(backend.set_calls.is_empty());
}

#[test]
fn set_control_refuses_read_only_controls() {
    let mut ro = make_brightness_control(Some(128));
    ro.flags.is_read_only = true;
    let mut backend = MockBackend::new(vec![ro]);
    let err = camctl::apply::set_camera_control(&mut backend, "test-device", "brightness", 1).unwrap_err();
    assert_eq!(err, "Control 'Brightness' is read-only");
    assert!(backend.set_calls.is_empty());
}

#[test]
fn reset_reads_default_value_from_descriptor() {
    let mut backend = MockBackend::new(vec![make_brightness_control(Some(128)), make_contrast_control(None)]);
    assert_eq!(camctl::apply::reset_camera_control(&mut backend, "test-device", "brightness"), Ok(128));
    assert_eq!(backend.set_calls, vec![("test-device".to_string(), "brightness".to_string(), 128)]);
    assert_eq!(
        camctl::apply::reset_camera_control(&mut backend, "test-device", "contrast"),
        Err("No default value for 'Contrast'".to_string())
    );
}

#[test]
fn apply_with_descriptors_writes_the_plan_and_reports_successes() {
    let mut backend = MockBackend::new(vec![make_brightness_control(Some(128)), make_contrast_control(Some(50))])
        .with_failing_controls(vec!["brightness".to_string()]);
    let saved = vec![("brightness".to_string(), 300), ("nope".to_string(), 1), ("contrast".to_string(), 80)];
    let descriptors = vec![make_brightness_control(Some(128)), make_contrast_control(Some(50))];
    let applied = camctl::apply::apply_with_descriptors(&mut backend, "test-device", &saved, &descriptors);
    assert_eq!(applied, vec![("contrast".to_string(), 80)]);
    assert_eq!(backend.set_calls, vec![("test-device".to_string(), "contrast".to_string(), 80)]);
}

#[test]
fn control_checks_give_value_or_reason() {
    let mut ro = make_contrast_control(None);
    ro.flags.is_read_only = true;
    let descs = vec![make_brightness_control(Some(128)), ro];
    assert_eq!(camctl::apply::check_control_write(&descs, "brightness", ControlId::Brightness, -5), Ok(0));
    assert_eq!(
        camctl::apply::check_control_write(&descs, "contrast", ControlId::Contrast, 5),
        Err("Control 'Contrast' is read-only".to_string())
    );
    assert_eq!(camctl::apply::check_control_reset(&descs, "brightness", ControlId::Brightness), Ok((128, 128)));
    assert_eq!(
        camctl::apply::check_control_reset(&descs, "gain", ControlId::Gain),
        Err("Control 'Gain' not supported on this device".to_string())
    );
}
