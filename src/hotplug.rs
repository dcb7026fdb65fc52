//! What the application does on each hot-plug event: restore saved
//! settings of a connected camera, stop the preview of a disconnected one.

use vstd::prelude::*;
use crate::apply::{apply_outcome, apply_saved_settings, pairs_view};
use crate::backend::{CameraBackend, ControlWrite};
use crate::settings::SettingsStore;
use crate::types::{CameraDevice, HotplugEvent};

verus! {

/// Payload of the `settings-restored` notification.
#[derive(Debug, Clone, PartialEq, Eq)]
pub struct SettingsRestored {
    pub device_id: String,
    pub camera_name: String,
    pub controls_applied: usize,
}

/// The follow-up work of one hot-plug event, beyond forwarding the event.
#[derive(Debug)]
pub struct HotplugOutcome {
    /// Saved settings were reapplied to a connected camera.
    pub restored: Option<SettingsRestored>,
    /// The preview session of this device is to be stopped.
    pub stop_preview: Option<String>,
}

/// The `settings-restored` payload for a connected device after
/// reapplying: present exactly when something was applied, with the count.
pub fn restored_payload(device: &CameraDevice, applied: &Vec<(String, i32)>) -> (r: Option<SettingsRestored>)
    ensures
        r is Some <==> applied@.len() > 0,
        r is Some ==> r->0.device_id@ == device.id@ && r->0.camera_name@ == device.name@
            && r->0.controls_applied == applied@.len(),
{
    if applied.len() == 0 {
        None
    } else {
        Some(
            SettingsRestored {
                device_id: device.id.to_string(),
                camera_name: device.name.clone(),
                controls_applied: applied.len(),
            },
        )
    }
}

/// Reapplying for the connected device `d` had outcome `applied`, and the
/// payload `restored` reports it.
pub open spec fn restored_after<B: CameraBackend>(
    before_b: B,
    cameras: Map<Seq<char>, crate::settings::CameraView>,
    d: CameraDevice,
    after: Seq<ControlWrite>,
    applied: Seq<(Seq<char>, i32)>,
    restored: Option<SettingsRestored>,
) -> bool {
    &&& apply_outcome(before_b, cameras, d.id@, after, applied)
    &&& (restored is Some <==> applied.len() > 0)
    &&& (restored is Some ==> restored->0.device_id@ == d.id@ && restored->0.camera_name@ == d.name@
        && restored->0.controls_applied == applied.len())
}

/// Handles one hot-plug event: for a connected camera, reapplies its saved
/// settings when a store is available and reports how many were applied if
/// any; for a disconnected camera, names the preview session to stop.
pub fn handle_hotplug_event<B: CameraBackend>(backend: &mut B, store: Option<&SettingsStore>, event: &HotplugEvent) -> (r: HotplugOutcome)
    ensures
        match event {
            HotplugEvent::Connected(d) => {
                &&& r.stop_preview is None
                &&& store is None ==> r.restored is None && *final(backend) == *old(backend)
                &&& store is Some ==> exists|applied: Seq<(Seq<char>, i32)>|
                    #[trigger] restored_after(
                        *old(backend),
                        store->0.cameras(),
                        *d,
                        final(backend).write_log(),
                        applied,
                        r.restored,
                    )
            },
            HotplugEvent::Disconnected { id } => {
                &&& r.restored is None
                &&& r.stop_preview is Some
                &&& r.stop_preview->0@ == id@
                &&& *final(backend) == *old(backend)
            },
        },
{
    match event {
        HotplugEvent::Connected(device) => {
            match store {
                None => HotplugOutcome { restored: None, stop_preview: None },
                Some(s) => {
                    let applied = apply_saved_settings(backend, s, device.id.as_str());
                    let restored = restored_payload(device, &applied);
                    assert(restored_after(
                        *old(backend),
                        s.cameras(),
                        *device,
                        backend.write_log(),
                        pairs_view(applied@),
                        restored,
                    ));
                    HotplugOutcome { restored, stop_preview: None }
                },
            }
        },
        HotplugEvent::Disconnected { id } => HotplugOutcome { restored: None, stop_preview: Some(id.to_string()) },
    }
}

} // verus!
