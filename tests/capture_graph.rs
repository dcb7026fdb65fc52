use camctl::canon_mock::MockEdsSdk;
use camctl::canon_watch::{initial_ids, poll_hotplug, poll_live_view};
use camctl::directshow::RawDeviceInfo;
use camctl::eds::{CameraHandle, EdsSdkApi};
use camctl::error::CameraError;
use camctl::frames::{FrameBuffer, PixelSubtype};
use camctl::graph::{
    closest_capability, find_source_filter, first_nv12_capability, negotiated_format,
    resolve_device_info, should_negotiate_resolution,
};
use camctl::types::{CameraDevice, DeviceId, HotplugEvent};

fn raw(name: &str, path: &str) -> RawDeviceInfo {
    RawDeviceInfo { friendly_name: name.to_string(), device_path: path.to_string() }
}

#[test]
fn resolution_is_negotiated_except_for_obs_or_zero_request() {
    assert!(should_negotiate_resolution(1920, 1080, "Logitech BRIO"));
    assert!(!should_negotiate_resolution(0, 1080, "Logitech BRIO"));
    assert!(!should_negotiate_resolution(1920, 1080, "OBS Virtual Camera"));
}

#[test]
fn closest_capability_prefers_nearest_pixel_count() {
    let caps = vec![(640, 480), (0, 0), (1920, 1080), (1280, 720), (1280, 720)];
    assert_eq!(closest_capability(&caps, 1280, 700), Some(3));
    assert_eq!(closest_capability(&caps, 4000, 3000), Some(2));
    assert_eq!(closest_capability(&caps, 1, 1), Some(0));
    assert_eq!(closest_capability(&vec![(0, 5)], 1, 1), None);
}

#[test]
fn source_filter_matches_path_then_nameless_virtual_camera() {
    let filters = vec![raw("Cam A", "path-a"), raw("Virtual", ""), raw("Cam B", "path-b")];
    assert_eq!(find_source_filter(&filters, "path-b", "Cam B"), Some(2));
    assert_eq!(find_source_filter(&filters, "", "Virtual"), Some(1));
    assert_eq!(find_source_filter(&filters, "missing", "Cam A"), None);
}

#[test]
fn nv12_capability_needs_video_info() {
    let caps = vec![(PixelSubtype::Rgb24, true), (PixelSubtype::Nv12, false), (PixelSubtype::Nv12, true)];
    assert_eq!(first_nv12_capability(&caps), Some(2));
    assert_eq!(first_nv12_capability(&caps[..2].to_vec()), None);
}

#[test]
fn negotiated_format_falls_back_to_request() {
    assert_eq!(negotiated_format(None, 640, 480), (640, 480, PixelSubtype::Rgb24));
    assert_eq!(negotiated_format(Some((2, 2, PixelSubtype::Nv12)), 640, 480), (2, 2, PixelSubtype::Nv12));
}

#[test]
fn resolves_enumerated_device() {
    let devices = vec![CameraDevice {
        id: DeviceId::new("ds:1"),
        name: "Cam".to_string(),
        device_path: "p".to_string(),
        is_connected: true,
    }];
    assert_eq!(resolve_device_info(&devices, "ds:1"), Ok(("p".to_string(), "Cam".to_string())));
    assert_eq!(resolve_device_info(&devices, "x"), Err("device not found: x".to_string()));
}

#[test]
fn detects_initial_cameras() {
    let mut mock = MockEdsSdk::new().with_camera("Canon EOS R5", Some("SER001"));
    let ids = initial_ids(&mut mock);
    assert_eq!(ids, vec![DeviceId::new("canon:SER001")]);
}

#[test]
fn hotplug_poll_reports_changes_once() {
    let mut mock = MockEdsSdk::new().with_camera("Canon EOS R5", Some("SER001"));
    let mut known = vec![DeviceId::new("canon:OLD")];
    let events = poll_hotplug(&mut mock, &mut known);
    assert_eq!(events.len(), 2);
    assert!(matches!(&events[0], HotplugEvent::Connected(d) if d.id.as_str() == "canon:SER001"));
    assert!(matches!(&events[1], HotplugEvent::Disconnected { id } if id.as_str() == "canon:OLD"));
    assert!(poll_hotplug(&mut mock, &mut known).is_empty());
    assert_eq!(mock.events_processed(), 2);
}

#[test]
fn hotplug_poll_keeps_known_on_enumeration_failure() {
    let mut mock = MockEdsSdk::new().with_error("camera_list", CameraError::CanonSdkError("x".to_string()));
    let mut known = vec![DeviceId::new("canon:A")];
    assert!(poll_hotplug(&mut mock, &mut known).is_empty());
    assert_eq!(known, vec![DeviceId::new("canon:A")]);
}

#[test]
fn live_view_session_pushes_frames_to_buffer() {
    let mut mock = MockEdsSdk::new().with_cameras(1).with_live_view_frame(vec![0xFF, 0xD8, 0xFF, 0xD9]);
    let mut buffer = FrameBuffer::new(3);
    let mut delivered = 0u64;
    assert!(!poll_live_view(&mut mock, CameraHandle(0), &mut buffer, &mut delivered, 200_000));
    mock.start_live_view(CameraHandle(0)).unwrap();
    assert!(poll_live_view(&mut mock, CameraHandle(0), &mut buffer, &mut delivered, 200_000));
    assert!(poll_live_view(&mut mock, CameraHandle(0), &mut buffer, &mut delivered, 200_000));
    let f = buffer.latest().unwrap();
    assert_eq!(f.data, vec![0xFF, 0xD8, 0xFF, 0xD9]);
    assert_eq!(f.timestamp_us, 400_000);
    assert_eq!(buffer.sequence(), 2);
}

#[test]
fn discovery_result_updates_known_ids() {
    let mut mock = MockEdsSdk::new().with_camera("Canon EOS R5", Some("SER001"));
    let found = camctl::canon_discovery::discover_cameras(&mut mock);
    let mut known = vec![DeviceId::new("canon:OLD")];
    let events = camctl::canon_watch::apply_discovery(&mut known, found);
    assert_eq!(events.len(), 2);
    assert_eq!(known, vec![DeviceId::new("canon:SER001")]);
    let none = camctl::canon_watch::apply_discovery(&mut known, Err(CameraError::CanonSdkError("x".to_string())));
    assert!(none.is_empty());
    assert_eq!(known, vec![DeviceId::new("canon:SER001")]);
}
