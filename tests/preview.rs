use camctl::backend::CameraBackend;
use camctl::canon_backend::CanonBackend;
use camctl::canon_mock::MockEdsSdk;
use camctl::composite::CompositeBackend;
use camctl::dummy::DummyBackend;
use camctl::error::CameraError;
use camctl::frames::{Frame, FrameBuffer};
use camctl::hotplug::handle_hotplug_event;
use camctl::preview::{get_frame, FrameCache};
use camctl::settings::SettingsStore;
use camctl::types::{CameraDevice, ControlDescriptor, ControlId, ControlValue, DeviceId, FormatDescriptor, HotplugEvent};

fn grey_frame(ts: u64) -> Frame {
    Frame { data: vec![128u8; 4 * 4 * 3], width: 4, height: 4, timestamp_us: ts }
}

#[test]
fn jpeg_cache_returns_same_result_for_same_sequence() {
    let mut cache = FrameCache::new();
    let mut buffer = FrameBuffer::new(3);
    buffer.push(grey_frame(0));
    let first = get_frame(&mut cache, "dev", &buffer).unwrap();
    assert_eq!(cache.lookup("dev"), Some((1, first.clone())));
    let second = get_frame(&mut cache, "dev", &buffer).unwrap();
    assert_eq!(first, second);
    assert!(first.starts_with("/9j/"), "base64 of a JPEG starts with /9j/: {first}");
}

#[test]
fn jpeg_cache_invalidates_on_new_frame() {
    let mut cache = FrameCache::new();
    let mut buffer = FrameBuffer::new(3);
    buffer.push(grey_frame(0));
    let _ = get_frame(&mut cache, "dev", &buffer).unwrap();
    buffer.push(Frame { data: vec![10u8; 4 * 4 * 3], width: 4, height: 4, timestamp_us: 0 });
    let second = get_frame(&mut cache, "dev", &buffer).unwrap();
    assert_eq!(cache.lookup("dev"), Some((2, second)));
}

#[test]
fn cache_hit_does_not_encode_again() {
    let mut cache = FrameCache::new();
    let mut buffer = FrameBuffer::new(3);
    buffer.push(grey_frame(0));
    cache.store("dev", 1, "cached-text".to_string());
    assert_eq!(get_frame(&mut cache, "dev", &buffer).unwrap(), "cached-text");
}

#[test]
fn stop_preview_clears_jpeg_cache() {
    let mut cache = FrameCache::new();
    cache.store("a", 1, "x".to_string());
    cache.store("b", 2, "y".to_string());
    cache.purge("a");
    assert_eq!(cache.lookup("a"), None);
    assert_eq!(cache.lookup("b"), Some((2, "y".to_string())));
}

#[test]
fn get_frame_errors_without_frame_or_with_bad_frame() {
    let mut cache = FrameCache::new();
    let buffer = FrameBuffer::new(3);
    assert_eq!(get_frame(&mut cache, "dev", &buffer), Err("no frame available".to_string()));
    let mut short = FrameBuffer::new(3);
    short.push(Frame { data: vec![1, 2], width: 4, height: 4, timestamp_us: 0 });
    assert_eq!(get_frame(&mut cache, "dev", &short), Err("frame could not be encoded".to_string()));
    assert_eq!(cache.lookup("dev"), None);
}

enum AnyBackend {
    Dummy(DummyBackend),
    Canon(CanonBackend<MockEdsSdk>),
    Failing,
}

impl CameraBackend for AnyBackend {
    fn watch_hotplug<F: Fn(HotplugEvent) + Clone + Send + 'static>(&mut self, callback: F) -> Result<(), CameraError> {
        match self {
            AnyBackend::Dummy(b) => b.watch_hotplug(callback),
            AnyBackend::Canon(b) => b.watch_hotplug(callback),
            AnyBackend::Failing => Err(CameraError::Hotplug("unavailable".to_string())),
        }
    }

    fn enumerate_devices(&mut self) -> Result<Vec<CameraDevice>, CameraError> {
        match self {
            AnyBackend::Dummy(b) => b.enumerate_devices(),
            AnyBackend::Canon(b) => b.enumerate_devices(),
            AnyBackend::Failing => Err(CameraError::Enumeration("unavailable".to_string())),
        }
    }

    fn get_controls(&mut self, id: &DeviceId) -> Result<Vec<ControlDescriptor>, CameraError> {
        match self {
            AnyBackend::Dummy(b) => b.get_controls(id),
            AnyBackend::Canon(b) => b.get_controls(id),
            AnyBackend::Failing => Err(CameraError::DeviceNotFound(id.as_str().to_string())),
        }
    }

    fn get_control(&mut self, id: &DeviceId, control: &ControlId) -> Result<ControlValue, CameraError> {
        match self {
            AnyBackend::Dummy(b) => b.get_control(id, control),
            AnyBackend::Canon(b) => b.get_control(id, control),
            AnyBackend::Failing => Err(CameraError::DeviceNotFound(id.as_str().to_string())),
        }
    }

    fn set_control(&mut self, id: &DeviceId, control: &ControlId, value: ControlValue) -> Result<(), CameraError> {
        match self {
            AnyBackend::Dummy(b) => b.set_control(id, control, value),
            AnyBackend::Canon(b) => b.set_control(id, control, value),
            AnyBackend::Failing => Err(CameraError::DeviceNotFound(id.as_str().to_string())),
        }
    }

    fn get_formats(&mut self, id: &DeviceId) -> Result<Vec<FormatDescriptor>, CameraError> {
        match self {
            AnyBackend::Dummy(b) => b.get_formats(id),
            AnyBackend::Canon(b) => b.get_formats(id),
            AnyBackend::Failing => Err(CameraError::DeviceNotFound(id.as_str().to_string())),
        }
    }
}

fn canon() -> CanonBackend<MockEdsSdk> {
    let mock = MockEdsSdk::new()
        .with_camera("Canon EOS R5", Some("SER001"))
        .with_property(0, camctl::eds::PROP_ID_ISO_SPEED, 0x48)
        .with_property_desc(0, camctl::eds::PROP_ID_ISO_SPEED, vec![0x48, 0x50]);
    CanonBackend::new(mock)
}

#[test]
fn composite_routes_by_owner() {
    let mut composite = CompositeBackend::new(vec![AnyBackend::Dummy(DummyBackend::new()), AnyBackend::Canon(canon())]);
    let devices = composite.enumerate_devices().unwrap();
    assert_eq!(devices.len(), 2);
    assert_eq!(devices[0].id.as_str(), "dummy:test:camera-001");
    assert_eq!(devices[1].id.as_str(), "canon:SER001");
    let controls = composite.get_controls(&DeviceId::new("canon:SER001")).unwrap();
    assert!(controls.iter().any(|c| c.id == "canon_iso"));
    assert!(controls.iter().all(|c| c.group == "camera"));
    let dummy_controls = composite.get_controls(&DeviceId::new("dummy:test:camera-001")).unwrap();
    assert_eq!(dummy_controls.len(), 5);
    let err = composite.get_controls(&DeviceId::new("bogus")).unwrap_err();
    assert!(err.is_device_not_found());
}

#[test]
fn failing_backend_does_not_block_enumeration() {
    let mut composite = CompositeBackend::new(vec![AnyBackend::Failing, AnyBackend::Dummy(DummyBackend::new())]);
    let devices = composite.enumerate_devices().unwrap();
    assert_eq!(devices.len(), 1);
}

#[test]
fn empty_composite_enumerates_zero_devices() {
    let mut composite: CompositeBackend<AnyBackend> = CompositeBackend::new(vec![]);
    assert!(composite.enumerate_devices().unwrap().is_empty());
    assert!(composite.get_formats(&DeviceId::new("x")).unwrap_err().is_device_not_found());
}

#[test]
fn routes_set_control() {
    let mut composite = CompositeBackend::new(vec![AnyBackend::Dummy(DummyBackend::new()), AnyBackend::Canon(canon())]);
    composite.enumerate_devices().unwrap();
    let id = DeviceId::new("canon:SER001");
    composite.set_control(&id, &ControlId::Iso, ControlValue::new(0x50, None, None)).unwrap();
    assert_eq!(composite.get_control(&id, &ControlId::Iso).unwrap().value(), 0x50);
    let err = composite.get_control(&id, &ControlId::Brightness).unwrap_err();
    assert!(!err.is_device_not_found());
    let formats = composite.get_formats(&id).unwrap();
    assert_eq!(formats[0].width, 960);
}

#[test]
fn hotplug_restores_settings_and_stops_sessions() {
    let mut backend = DummyBackend::new();
    let mut store = SettingsStore::new();
    store.set_control("dummy:test:camera-001", "Dummy", "brightness", 200);
    store.set_control("dummy:test:camera-001", "Dummy", "unknown_ctrl", 42);
    let device = CameraDevice {
        id: DummyBackend::device_id(),
        name: "Dummy".to_string(),
        device_path: "dummy://test-camera".to_string(),
        is_connected: true,
    };
    let out = handle_hotplug_event(&mut backend, Some(&store), &HotplugEvent::Connected(device));
    let restored = out.restored.unwrap();
    assert_eq!(restored.controls_applied, 1);
    assert_eq!(restored.device_id, "dummy:test:camera-001");
    assert_eq!(backend.get_control(&DummyBackend::device_id(), &ControlId::Brightness).unwrap().value(), 200);
    let gone = handle_hotplug_event(&mut backend, Some(&store), &HotplugEvent::Disconnected { id: DeviceId::new("x") });
    assert_eq!(gone.stop_preview, Some("x".to_string()));
    assert!(gone.restored.is_none());
}

fn gradient(width: u32, height: u32) -> Vec<u8> {
    let mut data = Vec::with_capacity((width * height * 3) as usize);
    for y in 0..height {
        for x in 0..width {
            data.push((x % 256) as u8);
            data.push((y % 256) as u8);
            data.push(128);
        }
    }
    data
}

#[test]
fn compress_thumbnail_produces_reduced_resolution() {
    let mut buffer = FrameBuffer::new(3);
    buffer.push(Frame { data: gradient(640, 480), width: 640, height: 480, timestamp_us: 0 });
    let text = camctl::preview::get_thumbnail(&buffer).unwrap();
    let bytes = base64::Engine::decode(&base64::engine::general_purpose::STANDARD, text).unwrap();
    let img = image::load_from_memory(&bytes).unwrap();
    assert_eq!((img.width(), img.height()), (160, 120));
    assert!(bytes.len() < 10 * 1024, "thumbnail is {} bytes", bytes.len());
}

#[test]
fn compress_jpeg_produces_valid_jpeg_bytes() {
    let mut cache = FrameCache::new();
    let mut buffer = FrameBuffer::new(3);
    buffer.push(Frame { data: gradient(64, 48), width: 64, height: 48, timestamp_us: 0 });
    let text = get_frame(&mut cache, "dev", &buffer).unwrap();
    let bytes = base64::Engine::decode(&base64::engine::general_purpose::STANDARD, text).unwrap();
    assert_eq!(&bytes[..2], &[0xFF, 0xD8]);
    assert_eq!(&bytes[bytes.len() - 2..], &[0xFF, 0xD9]);
    let img = image::load_from_memory(&bytes).unwrap();
    assert_eq!((img.width(), img.height()), (64, 48));
}

#[test]
fn thumbnail_needs_a_frame() {
    let buffer = FrameBuffer::new(3);
    assert_eq!(camctl::preview::get_thumbnail(&buffer), Err("no frame available".to_string()));
}

#[test]
fn hotplug_registered_on_all_backends() {
    let mut composite = CompositeBackend::new(vec![AnyBackend::Failing, AnyBackend::Dummy(DummyBackend::new())]);
    assert!(composite.watch_hotplug(|_event: HotplugEvent| {}).is_ok());
}
