//! The camera backend for vendor-SDK cameras.

use vstd::prelude::*;
use crate::backend::{not_found, not_found_for, CameraBackend, ControlWrite};
use crate::canon_controls::get_canon_controls;
use crate::canon_discovery::discover_cameras;
use crate::eds::{
    CameraHandle, EdsPropertyID, EdsSdkApi, PROP_ID_AV, PROP_ID_EXPOSURE_COMPENSATION,
    PROP_ID_ISO_SPEED, PROP_ID_TV, PROP_ID_WHITE_BALANCE,
};
use crate::error::CameraError;
use crate::text::{push_str, str_eq};
use crate::types::{
    CameraDevice, ControlDescriptor, ControlId, ControlValue, DeviceId, FormatDescriptor, HotplugEvent,
};

verus! {

/// The vendor property of a control, for the controls the vendor SDK has.
pub open spec fn canon_property(control: ControlId) -> Option<EdsPropertyID> {
    match control {
        ControlId::Iso => Some(PROP_ID_ISO_SPEED),
        ControlId::Aperture => Some(PROP_ID_AV),
        ControlId::ShutterSpeed => Some(PROP_ID_TV),
        ControlId::ExposureCompensation => Some(PROP_ID_EXPOSURE_COMPENSATION),
        ControlId::WhiteBalance => Some(PROP_ID_WHITE_BALANCE),
        _ => None,
    }
}

/// One enumerated camera.
#[derive(Debug)]
pub struct CanonCamera {
    pub handle: CameraHandle,
    pub device: CameraDevice,
}

/// Camera backend over a vendor-SDK implementation.
pub struct CanonBackend<S: EdsSdkApi> {
    sdk: S,
    cameras: Vec<CanonCamera>,
    writes: Ghost<Seq<ControlWrite>>,
}

impl<S: EdsSdkApi> CanonBackend<S> {
    /// Identifiers of the cameras of the last enumeration, in order.
    pub closed spec fn known_ids(&self) -> Seq<Seq<char>> {
        Seq::new(self.cameras@.len(), |i: int| self.cameras@[i].device.id@)
    }

    /// A backend that has enumerated nothing yet.
    pub fn new(sdk: S) -> (r: CanonBackend<S>)
        ensures
            r.known_ids() == Seq::<Seq<char>>::empty(),
            r.write_log() == Seq::<ControlWrite>::empty(),
    {
        let r = CanonBackend { sdk, cameras: Vec::new(), writes: Ghost(Seq::empty()) };
        assert(r.known_ids() =~= Seq::<Seq<char>>::empty());
        r
    }

    /// The handle of a known device.
    pub fn find_handle(&self, id: &DeviceId) -> (r: Result<CameraHandle, CameraError>)
        ensures
            r is Ok <==> self.known_ids().contains(id@),
            r is Err ==> not_found_for(&r, id@),
    {
        let mut i: usize = 0;
        while i < self.cameras.len()
            invariant
                i <= self.cameras@.len(),
                forall|j: int| 0 <= j < i ==> self.cameras@[j].device.id@ != id@,
            decreases self.cameras@.len() - i,
        {
            if str_eq(self.cameras[i].device.id.as_str(), id.as_str()) {
                assert(self.known_ids()[i as int] == id@);
                return Ok(self.cameras[i].handle);
            }
            i += 1;
        }
        assert(!self.known_ids().contains(id@)) by {
            if self.known_ids().contains(id@) {
                let j = choose|j: int| 0 <= j < self.known_ids().len() && self.known_ids()[j] == id@;
                assert(self.cameras@[j].device.id@ == id@);
            }
        }
        Err(CameraError::DeviceNotFound(id.to_string()))
    }

    fn write_property(&mut self, id: &DeviceId, control: &ControlId, value: ControlValue) -> (r: Result<(), CameraError>)
        ensures
            final(self).writes == old(self).writes,
            final(self).known_ids() == old(self).known_ids(),
            !old(self).known_ids().contains(id@) ==> not_found_for(&r, id@),
            old(self).known_ids().contains(id@) && canon_property(*control) is None ==> r matches Err(
                CameraError::ControlQuery(_),
            ),
    {
        let handle = self.find_handle(id)?;
        let prop = Self::control_to_property(control)?;
        self.sdk.set_property(handle, prop, value.value())
    }

    /// The vendor property of a control; a control the vendor SDK lacks is a
    /// `ControlQuery` error.
    pub fn control_to_property(control: &ControlId) -> (r: Result<EdsPropertyID, CameraError>)
        ensures
            match canon_property(*control) {
                Some(p) => r == Ok::<EdsPropertyID, CameraError>(p),
                None => r matches Err(CameraError::ControlQuery(_)),
            },
    {
        match control {
            ControlId::Iso => Ok(PROP_ID_ISO_SPEED),
            ControlId::Aperture => Ok(PROP_ID_AV),
            ControlId::ShutterSpeed => Ok(PROP_ID_TV),
            ControlId::ExposureCompensation => Ok(PROP_ID_EXPOSURE_COMPENSATION),
            ControlId::WhiteBalance => Ok(PROP_ID_WHITE_BALANCE),
            _ => {
                let mut s = String::new();
                push_str(&mut s, "control '");
                push_str(&mut s, control.as_id_str());
                push_str(&mut s, "' is not a Canon property");
                Err(CameraError::ControlQuery(s))
            },
        }
    }
}

impl<S: EdsSdkApi> CameraBackend for CanonBackend<S> {
    closed spec fn write_log(&self) -> Seq<ControlWrite> {
        self.writes@
    }

    closed spec fn owns(&self, id: Seq<char>) -> bool {
        self.known_ids().contains(id)
    }

    open spec fn controls_answer(&self, id: Seq<char>, r: Result<Vec<ControlDescriptor>, CameraError>) -> bool {
        if self.known_ids().contains(id) {
            r is Ok
        } else {
            not_found_for(&r, id)
        }
    }

    open spec fn control_answer(&self, id: Seq<char>, c: ControlId, r: Result<ControlValue, CameraError>) -> bool {
        if !self.known_ids().contains(id) {
            not_found_for(&r, id)
        } else {
            canon_property(c) is None ==> r matches Err(CameraError::ControlQuery(_))
        }
    }

    open spec fn write_answer(&self, id: Seq<char>, c: ControlId, v: i32, r: Result<(), CameraError>) -> bool {
        if !self.known_ids().contains(id) {
            not_found_for(&r, id)
        } else {
            canon_property(c) is None ==> r matches Err(CameraError::ControlQuery(_))
        }
    }

    open spec fn formats_answer(&self, id: Seq<char>, r: Result<Vec<FormatDescriptor>, CameraError>) -> bool {
        if !self.known_ids().contains(id) {
            not_found_for(&r, id)
        } else {
            &&& r is Ok
            &&& r->Ok_0@.len() == 1
            &&& r->Ok_0@[0].width == 960 && r->Ok_0@[0].height == 640
            &&& r->Ok_0@[0].fps_milli == 5_000
            &&& r->Ok_0@[0].pixel_format@ == "JPEG"@
        }
    }

    /// Lists the cameras and remembers their handles for later routing; on
    /// failure the known cameras stay as they were.
    fn enumerate_devices(&mut self) -> (r: Result<Vec<CameraDevice>, CameraError>)
        ensures
            r is Ok ==> final(self).known_ids() == crate::backend::device_ids(r->Ok_0@),
            r is Err ==> final(self).known_ids() == old(self).known_ids(),
    {
        let discovered = discover_cameras(&mut self.sdk)?;
        let mut cameras: Vec<CanonCamera> = Vec::new();
        let mut devices: Vec<CameraDevice> = Vec::new();
        let mut i: usize = 0;
        while i < discovered.len()
            invariant
                i <= discovered@.len(),
                cameras@.len() == i,
                devices@.len() == i,
                forall|k: int| 0 <= k < i ==> (#[trigger] cameras@[k]).device.id@ == devices@[k].id@,
            decreases discovered@.len() - i,
        {
            let (handle, device) = (discovered[i].0, discovered[i].1.clone());
            devices.push(device.clone());
            cameras.push(CanonCamera { handle, device });
            i += 1;
        }
        self.cameras = cameras;
        assert(self.known_ids() =~= crate::backend::device_ids(devices@));
        Ok(devices)
    }

    /// Vendor cameras are watched by polling the SDK (see `canon_watch`),
    /// not by this backend: registration succeeds and keeps nothing.
    fn watch_hotplug<F: Fn(HotplugEvent) + Clone + Send + 'static>(&mut self, callback: F) -> (r: Result<(), CameraError>)
        ensures
            r is Ok,
            final(self).known_ids() == old(self).known_ids(),
    {
        Ok(())
    }

    /// The vendor controls of a known camera.
    fn get_controls(&mut self, id: &DeviceId) -> (r: Result<Vec<ControlDescriptor>, CameraError>)
        ensures
            final(self).known_ids() == old(self).known_ids(),
            old(self).known_ids().contains(id@) ==> r is Ok,
    {
        let handle = self.find_handle(id)?;
        get_canon_controls(&mut self.sdk, handle)
    }

    /// Reads the vendor property of a control of a known camera, unclamped.
    fn get_control(&mut self, id: &DeviceId, control: &ControlId) -> (r: Result<ControlValue, CameraError>)
        ensures
            final(self).known_ids() == old(self).known_ids(),
            old(self).known_ids().contains(id@) && canon_property(*control) is None ==> r matches Err(
                CameraError::ControlQuery(_),
            ),
    {
        let handle = self.find_handle(id)?;
        let prop = Self::control_to_property(control)?;
        let value = self.sdk.get_property(handle, prop)?;
        Ok(ControlValue::new(value, None, None))
    }

    /// Writes the vendor property of a control of a known camera.
    fn set_control(&mut self, id: &DeviceId, control: &ControlId, value: ControlValue) -> (r: Result<(), CameraError>)
        ensures
            final(self).known_ids() == old(self).known_ids(),
            old(self).known_ids().contains(id@) && canon_property(*control) is None ==> r matches Err(
                CameraError::ControlQuery(_),
            ),
    {
        let r = self.write_property(id, control, value);
        self.writes = Ghost(self.writes@.push((id@, *control, value@, r is Ok)));
        r
    }

    /// The fixed live-view format of a known camera.
    fn get_formats(&mut self, id: &DeviceId) -> (r: Result<Vec<FormatDescriptor>, CameraError>)
        ensures
            final(self).known_ids() == old(self).known_ids(),
            old(self).known_ids().contains(id@) ==> {
                &&& r is Ok
                &&& r->Ok_0@.len() == 1
                &&& r->Ok_0@[0].width == 960 && r->Ok_0@[0].height == 640
                &&& r->Ok_0@[0].fps_milli == 5_000
                &&& r->Ok_0@[0].pixel_format@ == "JPEG"@
            },
    {
        let _ = self.find_handle(id)?;
        let mut v: Vec<FormatDescriptor> = Vec::new();
        v.push(FormatDescriptor { width: 960, height: 640, fps_milli: 5_000, pixel_format: "JPEG".to_string() });
        Ok(v)
    }
}

} // verus!
