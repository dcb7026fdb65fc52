//! An in-memory stand-in for the vendor SDK, configured with builder calls:
//! cameras, properties, a live-view frame and injected errors.

use vstd::prelude::*;
use crate::eds::{CameraHandle, EdsDeviceInfo, EdsPropertyDesc, EdsPropertyID, EdsSdkApi};
use crate::error::CameraError;
use crate::text::{dec_digits, dec_fixed, push_dec, push_dec_fixed, push_hex_fixed, push_str, str_eq};

verus! {

/// A simulated camera.
#[derive(Debug)]
pub struct MockCamera {
    pub model: String,
    pub serial: Option<String>,
    pub properties: Vec<(EdsPropertyID, i32)>,
    pub property_descs: Vec<(EdsPropertyID, Vec<i32>)>,
    pub session_open: bool,
}

/// An error that the next call of an operation returns.
#[derive(Debug)]
pub struct ErrorInjection {
    pub operation: String,
    pub error: CameraError,
}

/// The first value recorded for `prop` in a property list.
pub open spec fn prop_lookup(props: Seq<(EdsPropertyID, i32)>, prop: EdsPropertyID) -> Option<i32>
    decreases props.len(),
{
    if props.len() == 0 {
        None
    } else if props[0].0 == prop {
        Some(props[0].1)
    } else {
        prop_lookup(props.drop_first(), prop)
    }
}

/// Some injection is registered for `op`.
pub open spec fn has_injection(inj: Seq<ErrorInjection>, op: Seq<char>) -> bool {
    exists|i: int| 0 <= i < inj.len() && (#[trigger] inj[i]).operation@ == op
}

/// Mock SDK.
#[derive(Debug)]
pub struct MockEdsSdk {
    cameras: Vec<MockCamera>,
    live_view_frame: Option<Vec<u8>>,
    live_view_active: Vec<(usize, bool)>,
    error_injections: Vec<ErrorInjection>,
    events_processed: u32,
}

/// The text of `MOCK{:04}`'s number part.
pub open spec fn pad4(n: nat) -> Seq<char> {
    if n < 10000 {
        dec_fixed(n, 4)
    } else {
        dec_digits(n)
    }
}

fn find_prop(props: &Vec<(EdsPropertyID, i32)>, prop: EdsPropertyID) -> (r: Option<usize>)
    ensures
        match r {
            Some(i) => i < props@.len() && props@[i as int].0 == prop && forall|j: int| 0 <= j < i ==> props@[j].0 != prop,
            None => forall|j: int| 0 <= j < props@.len() ==> props@[j].0 != prop,
        },
{
    let mut i: usize = 0;
    while i < props.len()
        invariant
            i <= props@.len(),
            forall|j: int| 0 <= j < i ==> props@[j].0 != prop,
        decreases props@.len() - i,
    {
        if props[i].0 == prop {
            return Some(i);
        }
        i += 1;
    }
    None
}

proof fn lemma_prop_lookup_first(props: Seq<(EdsPropertyID, i32)>, prop: EdsPropertyID, i: int)
    requires
        0 <= i <= props.len(),
        forall|j: int| 0 <= j < i ==> props[j].0 != prop,
    ensures
        i < props.len() && props[i].0 == prop ==> prop_lookup(props, prop) == Some(props[i].1),
        i == props.len() ==> prop_lookup(props, prop) is None,
    decreases i,
{
    if i > 0 {
        lemma_prop_lookup_first(props.drop_first(), prop, i - 1);
    } else if props.len() > 0 {
    }
}

impl MockEdsSdk {
    /// Number of simulated cameras.
    pub closed spec fn camera_count(&self) -> nat {
        self.cameras@.len()
    }

    /// The property value of camera `idx`, if set.
    pub closed spec fn property(&self, idx: int, prop: EdsPropertyID) -> Option<i32> {
        prop_lookup(self.cameras@[idx].properties@, prop)
    }

    /// Operations with a pending injected error.
    pub closed spec fn injected(&self, op: Seq<char>) -> bool {
        has_injection(self.error_injections@, op)
    }

    /// The operations of the pending injected errors, in order.
    pub closed spec fn injections(&self) -> Seq<Seq<char>> {
        Seq::new(self.error_injections@.len(), |i: int| self.error_injections@[i].operation@)
    }

    /// Number of `get_event` calls that succeeded.
    pub closed spec fn event_count(&self) -> u32 {
        self.events_processed
    }

    /// A mock with no cameras.
    pub fn new() -> (r: MockEdsSdk)
        ensures
            r.camera_count() == 0,
            r.event_count() == 0,
            forall|op: Seq<char>| !r.injected(op),
    {
        MockEdsSdk {
            cameras: Vec::new(),
            live_view_frame: None,
            live_view_active: Vec::new(),
            error_injections: Vec::new(),
            events_processed: 0,
        }
    }

    /// Adds a camera with the given model and serial number.
    pub fn with_camera(self, model: &str, serial: Option<&str>) -> (r: MockEdsSdk)
        ensures
            r.camera_count() == self.camera_count() + 1,
            forall|i: int, p: EdsPropertyID| 0 <= i < self.camera_count() ==> r.property(i, p) == self.property(i, p),
            forall|p: EdsPropertyID| r.property(self.camera_count() as int, p) is None,
            r.event_count() == self.event_count(),
            forall|op: Seq<char>| r.injected(op) == self.injected(op),
    {
        let mut s = self;
        let serial = match serial {
            Some(x) => Some(x.to_string()),
            None => None,
        };
        s.cameras.push(
            MockCamera {
                model: model.to_string(),
                serial,
                properties: Vec::new(),
                property_descs: Vec::new(),
                session_open: false,
            },
        );
        s
    }

    /// Adds `count` cameras named "Canon EOS Mock N" with serials "MOCKNNNN".
    pub fn with_cameras(self, count: usize) -> (r: MockEdsSdk)
        requires
            self.camera_count() + count <= usize::MAX,
        ensures
            r.camera_count() == self.camera_count() + count,
            r.event_count() == self.event_count(),
            forall|op: Seq<char>| r.injected(op) == self.injected(op),
    {
        let mut result = self;
        let mut i: usize = 0;
        while i < count
            invariant
                i <= count,
                result.camera_count() == self.camera_count() + i,
                result.event_count() == self.event_count(),
                forall|op: Seq<char>| result.injected(op) == self.injected(op),
            decreases count - i,
        {
            let mut name = String::new();
            push_str(&mut name, "Canon EOS Mock ");
            push_dec(&mut name, i as u64 + 1);
            let mut serial = String::new();
            push_str(&mut serial, "MOCK");
            if i + 1 < 10000 {
                push_dec_fixed(&mut serial, i as u64 + 1, 4);
            } else {
                push_dec(&mut serial, i as u64 + 1);
            }
            result = result.with_camera(name.as_str(), Some(serial.as_str()));
            i += 1;
        }
        result
    }

    /// Sets the JPEG that `download_evf_image` returns.
    pub fn with_live_view_frame(self, jpeg_bytes: Vec<u8>) -> (r: MockEdsSdk)
        ensures
            r.camera_count() == self.camera_count(),
            r.event_count() == self.event_count(),
    {
        let mut s = self;
        s.live_view_frame = Some(jpeg_bytes);
        s
    }

    /// Sets a property of camera `camera_idx`; ignored for a camera that
    /// does not exist.
    pub fn with_property(self, camera_idx: usize, prop: EdsPropertyID, value: i32) -> (r: MockEdsSdk)
        ensures
            r.camera_count() == self.camera_count(),
            camera_idx < self.camera_count() ==> r.property(camera_idx as int, prop) == Some(value),
            r.event_count() == self.event_count(),
    {
        let mut s = self;
        if camera_idx < s.cameras.len() {
            let mut cam = s.cameras.remove(camera_idx);
            set_prop(&mut cam.properties, prop, value);
            s.cameras.insert(camera_idx, cam);
        }
        s
    }

    /// Sets the legal values of a property of camera `camera_idx`; ignored
    /// for a camera that does not exist.
    pub fn with_property_desc(self, camera_idx: usize, prop: EdsPropertyID, values: Vec<i32>) -> (r: MockEdsSdk)
        ensures
            r.camera_count() == self.camera_count(),
            r.event_count() == self.event_count(),
    {
        let mut s = self;
        if camera_idx < s.cameras.len() {
            let mut cam = s.cameras.remove(camera_idx);
            let mut i: usize = 0;
            let mut found = false;
            while i < cam.property_descs.len()
                invariant
                    i <= cam.property_descs@.len(),
                decreases cam.property_descs@.len() - i,
            {
                if cam.property_descs[i].0 == prop {
                    found = true;
                    break;
                }
                i += 1;
            }
            if found && i < cam.property_descs.len() {
                let _ = cam.property_descs.remove(i);
                cam.property_descs.insert(i, (prop, values));
            } else {
                cam.property_descs.push((prop, values));
            }
            s.cameras.insert(camera_idx, cam);
        }
        s
    }

    /// Makes the next call of `operation` fail with `error`.
    pub fn with_error(self, operation: &str, error: CameraError) -> (r: MockEdsSdk)
        ensures
            r.camera_count() == self.camera_count(),
            r.injected(operation@),
            r.event_count() == self.event_count(),
    {
        let mut s = self;
        s.error_injections.push(ErrorInjection { operation: operation.to_string(), error });
        let ghost n = s.error_injections@.len();
        assert(s.error_injections@[n - 1].operation@ == operation@);
        s
    }

    /// Number of `get_event` calls processed.
    pub fn events_processed(&self) -> (r: u32)
        ensures
            r == self.event_count(),
    {
        self.events_processed
    }

    /// Takes the first error injected for `operation`, if any.
    fn check_error(&mut self, operation: &str) -> (r: Result<(), CameraError>)
        ensures
            r is Err == old(self).injected(operation@),
            r is Ok ==> final(self).injections() == old(self).injections(),
            r is Err ==> exists|i: int|
                0 <= i < old(self).injections().len() && old(self).injections()[i] == operation@ && (forall|j: int|
                    0 <= j < i ==> old(self).injections()[j] != operation@) && final(self).injections()
                    == #[trigger] old(self).injections().remove(i),
            final(self).cameras == old(self).cameras,
            final(self).events_processed == old(self).events_processed,
    {
        let mut i: usize = 0;
        while i < self.error_injections.len()
            invariant
                i <= self.error_injections@.len(),
                forall|j: int| 0 <= j < i ==> (#[trigger] self.error_injections@[j]).operation@ != operation@,
                self.cameras == old(self).cameras,
                self.error_injections@ == old(self).error_injections@,
                self.events_processed == old(self).events_processed,
            decreases self.error_injections@.len() - i,
        {
            if str_eq(self.error_injections[i].operation.as_str(), operation) {
                let ghost before = self.injections();
                assert(before == old(self).injections());
                assert(before[i as int] == operation@);
                let inj = self.error_injections.remove(i);
                assert(self.injections() =~= before.remove(i as int));
                assert(self.injections() == old(self).injections().remove(i as int));
                return Err(inj.error);
            }
            i += 1;
        }
        Ok(())
    }

    fn missing_camera(handle: CameraHandle) -> (r: CameraError)
        ensures
            r is DeviceNotFound,
    {
        let mut s = String::new();
        push_str(&mut s, "mock camera ");
        push_dec(&mut s, handle.0 as u64);
        CameraError::DeviceNotFound(s)
    }
}

fn set_prop(props: &mut Vec<(EdsPropertyID, i32)>, prop: EdsPropertyID, value: i32)
    ensures
        prop_lookup(final(props)@, prop) == Some(value),
{
    match find_prop(props, prop) {
        Some(i) => {
            props.set(i, (prop, value));
            proof {
                lemma_prop_lookup_first(props@, prop, i as int);
            }
        },
        None => {
            props.push((prop, value));
            proof {
                lemma_prop_lookup_first(props@, prop, (props@.len() - 1) as int);
            }
        },
    }
}

/// Copies up to 255 bytes of `bytes` into a zeroed 256-byte field.
fn c_field(bytes: &[u8]) -> (r: [u8; 256])
    ensures
        forall|i: int| 0 <= i < 256 && i < bytes@.len() && i < 255 ==> r@[i] == bytes@[i],
        forall|i: int| 0 <= i < 256 && (i >= bytes@.len() || i >= 255) ==> r@[i] == 0,
{
    let mut out = [0u8; 256];
    let n = if bytes.len() < 255 {
        bytes.len()
    } else {
        255
    };
    let mut i: usize = 0;
    while i < n
        invariant
            n <= 255,
            n <= bytes@.len(),
            i <= n,
            out@.len() == 256,
            forall|j: int| 0 <= j < i ==> out@[j] == bytes@[j],
            forall|j: int| i <= j < 256 ==> out@[j] == 0,
        decreases n - i,
    {
        out[i] = bytes[i];
        i += 1;
    }
    out
}

impl EdsSdkApi for MockEdsSdk {
    fn camera_list(&mut self) -> (r: Result<Vec<CameraHandle>, CameraError>)
        ensures
            old(self).injected("camera_list"@) ==> r is Err,
            old(self).injected("camera_list"@) ==> exists|i: int|
                0 <= i < old(self).injections().len() && old(self).injections()[i] == "camera_list"@
                    && final(self).injections() == #[trigger] old(self).injections().remove(i),
            !old(self).injected("camera_list"@) ==> final(self).injections() == old(self).injections(),
            !old(self).injected("camera_list"@) ==> r is Ok && r->Ok_0@.len() == old(self).camera_count()
                && forall|k: int| 0 <= k < r->Ok_0@.len() ==> #[trigger] r->Ok_0@[k] == CameraHandle(k as usize),
            final(self).camera_count() == old(self).camera_count(),
    {
        self.check_error("camera_list")?;
        let mut v: Vec<CameraHandle> = Vec::new();
        let mut i: usize = 0;
        while i < self.cameras.len()
            invariant
                i <= self.cameras@.len(),
                v@.len() == i,
                self.cameras == old(self).cameras,
                forall|k: int| 0 <= k < i ==> #[trigger] v@[k] == CameraHandle(k as usize),
            decreases self.cameras@.len() - i,
        {
            v.push(CameraHandle(i));
            i += 1;
        }
        Ok(v)
    }

    fn open_session(&mut self, camera: CameraHandle) -> (r: Result<(), CameraError>)
        ensures
            old(self).injected("open_session"@) ==> r is Err,
            !old(self).injected("open_session"@) && camera.0 < old(self).camera_count() ==> r is Ok,
            !old(self).injected("open_session"@) && camera.0 >= old(self).camera_count() ==> r matches Err(
                CameraError::DeviceNotFound(_),
            ),
            final(self).camera_count() == old(self).camera_count(),
    {
        self.check_error("open_session")?;
        if camera.0 >= self.cameras.len() {
            return Err(MockEdsSdk::missing_camera(camera));
        }
        let mut cam = self.cameras.remove(camera.0);
        cam.session_open = true;
        self.cameras.insert(camera.0, cam);
        Ok(())
    }

    fn close_session(&mut self, camera: CameraHandle) -> (r: Result<(), CameraError>)
        ensures
            old(self).injected("close_session"@) ==> r is Err,
            !old(self).injected("close_session"@) && camera.0 < old(self).camera_count() ==> r is Ok,
            !old(self).injected("close_session"@) && camera.0 >= old(self).camera_count() ==> r matches Err(
                CameraError::DeviceNotFound(_),
            ),
            final(self).camera_count() == old(self).camera_count(),
    {
        self.check_error("close_session")?;
        if camera.0 >= self.cameras.len() {
            return Err(MockEdsSdk::missing_camera(camera));
        }
        let mut cam = self.cameras.remove(camera.0);
        cam.session_open = false;
        self.cameras.insert(camera.0, cam);
        Ok(())
    }

    fn get_device_info(&mut self, camera: CameraHandle) -> (r: Result<EdsDeviceInfo, CameraError>)
        ensures
            old(self).injected("get_device_info"@) ==> r is Err,
            !old(self).injected("get_device_info"@) && camera.0 < old(self).camera_count() ==> r is Ok,
            !old(self).injected("get_device_info"@) && camera.0 >= old(self).camera_count() ==> r matches Err(
                CameraError::DeviceNotFound(_),
            ),
            final(self).camera_count() == old(self).camera_count(),
    {
        self.check_error("get_device_info")?;
        if camera.0 >= self.cameras.len() {
            return Err(MockEdsSdk::missing_camera(camera));
        }
        let cam = &self.cameras[camera.0];
        let device_description = c_field(cam.model.as_str().as_bytes());
        let body_id_ex = match &cam.serial {
            Some(s) => c_field(s.as_str().as_bytes()),
            None => [0u8; 256],
        };
        Ok(EdsDeviceInfo { device_description, body_id_ex, reserved1: 0, reserved2: 0 })
    }

    fn start_live_view(&mut self, camera: CameraHandle) -> (r: Result<(), CameraError>)
        ensures
            old(self).injected("start_live_view"@) ==> r is Err,
            !old(self).injected("start_live_view"@) && camera.0 < old(self).camera_count() ==> r is Ok,
            !old(self).injected("start_live_view"@) && camera.0 >= old(self).camera_count() ==> r matches Err(
                CameraError::DeviceNotFound(_),
            ),
            final(self).camera_count() == old(self).camera_count(),
    {
        self.check_error("start_live_view")?;
        if camera.0 >= self.cameras.len() {
            return Err(MockEdsSdk::missing_camera(camera));
        }
        set_active(&mut self.live_view_active, camera.0, true);
        Ok(())
    }

    fn stop_live_view(&mut self, camera: CameraHandle) -> (r: Result<(), CameraError>)
        ensures
            old(self).injected("stop_live_view"@) ==> r is Err,
            !old(self).injected("stop_live_view"@) ==> r is Ok,
            final(self).camera_count() == old(self).camera_count(),
    {
        self.check_error("stop_live_view")?;
        set_active(&mut self.live_view_active, camera.0, false);
        Ok(())
    }

    fn download_evf_image(&mut self, camera: CameraHandle) -> (r: Result<Vec<u8>, CameraError>)
        ensures
            old(self).injected("download_evf_image"@) ==> r is Err,
            !old(self).injected("download_evf_image"@) && camera.0 >= old(self).camera_count() ==> r matches Err(
                CameraError::DeviceNotFound(_),
            ),
            final(self).camera_count() == old(self).camera_count(),
    {
        self.check_error("download_evf_image")?;
        if camera.0 >= self.cameras.len() {
            return Err(MockEdsSdk::missing_camera(camera));
        }
        let mut active = false;
        let mut i: usize = 0;
        while i < self.live_view_active.len()
            invariant
                i <= self.live_view_active@.len(),
            decreases self.live_view_active@.len() - i,
        {
            if self.live_view_active[i].0 == camera.0 {
                active = self.live_view_active[i].1;
                break;
            }
            i += 1;
        }
        if !active {
            return Err(CameraError::CanonSdkError("live view not active".to_string()));
        }
        match &self.live_view_frame {
            Some(f) => Ok(f.clone()),
            None => Err(CameraError::CanonSdkError("no live view frame configured".to_string())),
        }
    }

    fn get_property(&mut self, camera: CameraHandle, prop: EdsPropertyID) -> (r: Result<i32, CameraError>)
        ensures
            old(self).injected("get_property"@) ==> r is Err,
            !old(self).injected("get_property"@) && camera.0 >= old(self).camera_count() ==> r matches Err(
                CameraError::DeviceNotFound(_),
            ),
            !old(self).injected("get_property"@) && camera.0 < old(self).camera_count() ==> match old(self).property(camera.0 as int, prop) {
                Some(v) => r == Ok::<i32, CameraError>(v),
                None => r matches Err(CameraError::ControlQuery(_)),
            },
            final(self).camera_count() == old(self).camera_count(),
    {
        self.check_error("get_property")?;
        if camera.0 >= self.cameras.len() {
            return Err(MockEdsSdk::missing_camera(camera));
        }
        let props = &self.cameras[camera.0].properties;
        match find_prop(props, prop) {
            Some(i) => {
                proof {
                    lemma_prop_lookup_first(props@, prop, i as int);
                }
                Ok(props[i].1)
            },
            None => {
                proof {
                    lemma_prop_lookup_first(props@, prop, props@.len() as int);
                }
                let mut s = String::new();
                push_str(&mut s, "property 0x");
                push_hex_fixed(&mut s, prop as u64, 4, true);
                push_str(&mut s, " not set");
                Err(CameraError::ControlQuery(s))
            },
        }
    }

    fn set_property(&mut self, camera: CameraHandle, prop: EdsPropertyID, value: i32) -> (r: Result<(), CameraError>)
        ensures
            old(self).injected("set_property"@) ==> r is Err,
            !old(self).injected("set_property"@) && camera.0 < old(self).camera_count() ==> r is Ok
                && final(self).property(camera.0 as int, prop) == Some(value),
            !old(self).injected("set_property"@) && camera.0 >= old(self).camera_count() ==> r matches Err(
                CameraError::DeviceNotFound(_),
            ),
            final(self).camera_count() == old(self).camera_count(),
    {
        self.check_error("set_property")?;
        if camera.0 >= self.cameras.len() {
            return Err(MockEdsSdk::missing_camera(camera));
        }
        let mut cam = self.cameras.remove(camera.0);
        set_prop(&mut cam.properties, prop, value);
        self.cameras.insert(camera.0, cam);
        Ok(())
    }

    fn get_property_desc(&mut self, camera: CameraHandle, prop: EdsPropertyID) -> (r: Result<EdsPropertyDesc, CameraError>)
        ensures
            old(self).injected("get_property_desc"@) ==> r is Err,
            !old(self).injected("get_property_desc"@) && camera.0 < old(self).camera_count() ==> r is Ok,
            !old(self).injected("get_property_desc"@) && camera.0 >= old(self).camera_count() ==> r matches Err(
                CameraError::DeviceNotFound(_),
            ),
            final(self).camera_count() == old(self).camera_count(),
    {
        self.check_error("get_property_desc")?;
        if camera.0 >= self.cameras.len() {
            return Err(MockEdsSdk::missing_camera(camera));
        }
        let descs = &self.cameras[camera.0].property_descs;
        let mut values: Vec<i32> = Vec::new();
        let mut i: usize = 0;
        while i < descs.len()
            invariant
                i <= descs@.len(),
            decreases descs@.len() - i,
        {
            if descs[i].0 == prop {
                values = descs[i].1.clone();
                break;
            }
            i += 1;
        }
        Ok(EdsPropertyDesc { num_elements: values.len(), prop_desc: values })
    }

    fn get_event(&mut self) -> (r: Result<(), CameraError>)
        ensures
            old(self).injected("get_event"@) ==> r is Err && final(self).event_count() == old(self).event_count(),
            !old(self).injected("get_event"@) ==> r is Ok && final(self).event_count() == old(self).event_count().wrapping_add(1),
            final(self).camera_count() == old(self).camera_count(),
    {
        self.check_error("get_event")?;
        self.events_processed = self.events_processed.wrapping_add(1);
        Ok(())
    }
}

fn set_active(active: &mut Vec<(usize, bool)>, camera: usize, on: bool) {
    let mut i: usize = 0;
    while i < active.len()
        invariant
            i <= active@.len(),
        decreases active@.len() - i,
    {
        if active[i].0 == camera {
            active.set(i, (camera, on));
            return;
        }
        i += 1;
    }
    active.push((camera, on));
}

} // verus!
