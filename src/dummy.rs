//! A simulated camera for development without hardware: one fixed device
//! with five slider controls held in memory.

use vstd::prelude::*;
use crate::backend::{not_found_for, CameraBackend, ControlWrite};
use crate::error::CameraError;
use crate::types::{
    clamp_opt, CameraDevice, ControlDescriptor, ControlFlags, ControlId, ControlType, ControlValue,
    DeviceId, FormatDescriptor, HotplugEvent,
};
use crate::text::{push_str, str_eq};

verus! {

/// Number of simulated controls.
pub const DUMMY_CONTROL_COUNT: usize = 5;

/// The simulated device's identifier.
pub open spec fn dummy_id() -> Seq<char> {
    "dummy:test:camera-001"@
}

/// The control of simulated slot `i`.
pub open spec fn def_control(i: int) -> ControlId {
    if i == 0 {
        ControlId::Brightness
    } else if i == 1 {
        ControlId::Contrast
    } else if i == 2 {
        ControlId::Saturation
    } else if i == 3 {
        ControlId::Sharpness
    } else {
        ControlId::WhiteBalance
    }
}

/// `(min, max, default)` of simulated slot `i`.
pub open spec fn def_range(i: int) -> (i32, i32, i32) {
    if i == 0 {
        (0, 255, 128)
    } else if i == 1 {
        (0, 100, 50)
    } else if i == 2 {
        (0, 200, 100)
    } else if i == 3 {
        (0, 10, 5)
    } else {
        (2000, 9000, 6500)
    }
}

/// The slot of a control, if it is simulated.
pub open spec fn def_index(c: ControlId) -> Option<int> {
    match c {
        ControlId::Brightness => Some(0),
        ControlId::Contrast => Some(1),
        ControlId::Saturation => Some(2),
        ControlId::Sharpness => Some(3),
        ControlId::WhiteBalance => Some(4),
        _ => None,
    }
}

fn control_def(i: usize) -> (r: (ControlId, &'static str, i32, i32, i32, &'static str))
    requires
        i < DUMMY_CONTROL_COUNT,
    ensures
        r.0 == def_control(i as int),
        (r.2, r.3, r.4) == def_range(i as int),
        r.1@ == crate::types::control_display_name(r.0),
        r.5@ == crate::types::control_group(r.0),
{
    if i == 0 {
        (ControlId::Brightness, "Brightness", 0, 255, 128, "image")
    } else if i == 1 {
        (ControlId::Contrast, "Contrast", 0, 100, 50, "image")
    } else if i == 2 {
        (ControlId::Saturation, "Saturation", 0, 200, 100, "image")
    } else if i == 3 {
        (ControlId::Sharpness, "Sharpness", 0, 10, 5, "image")
    } else {
        (ControlId::WhiteBalance, "White Balance", 2000, 9000, 6500, "exposure")
    }
}

fn find_def(c: ControlId) -> (r: Option<usize>)
    ensures
        match r {
            Some(i) => def_index(c) == Some(i as int) && i < DUMMY_CONTROL_COUNT,
            None => def_index(c) is None,
        },
{
    match c {
        ControlId::Brightness => Some(0),
        ControlId::Contrast => Some(1),
        ControlId::Saturation => Some(2),
        ControlId::Sharpness => Some(3),
        ControlId::WhiteBalance => Some(4),
        _ => None,
    }
}

/// The minimal JPEG that the simulated camera delivers as every frame.
pub fn test_pattern_jpeg() -> (r: Vec<u8>)
    ensures
        r@.len() > 4,
        r@[0] == 0xFF && r@[1] == 0xD8,
        r@[r@.len() - 2] == 0xFF && r@[r@.len() - 1] == 0xD9,
{
    vec![
        0xFF, 0xD8, 0xFF, 0xE0, 0x00, 0x10, 0x4A, 0x46, 0x49, 0x46, 0x00, 0x01, 0x01, 0x00, 0x00,
        0x01, 0x00, 0x01, 0x00, 0x00, 0xFF, 0xDB, 0x00, 0x43, 0x00, 0x08, 0x06, 0x06, 0x07, 0x06,
        0x05, 0x08, 0x07, 0x07, 0x07, 0x09, 0x09, 0x08, 0x0A, 0x0C, 0x14, 0x0D, 0x0C, 0x0B, 0x0B,
        0x0C, 0x19, 0x12, 0x13, 0x0F, 0x14, 0x1D, 0x1A, 0x1F, 0x1E, 0x1D, 0x1A, 0x1C, 0x1C, 0x20,
        0x24, 0x2E, 0x27, 0x20, 0x22, 0x2C, 0x23, 0x1C, 0x1C, 0x28, 0x37, 0x29, 0x2C, 0x30, 0x31,
        0x34, 0x34, 0x34, 0x1F, 0x27, 0x39, 0x3D, 0x38, 0x32, 0x3C, 0x2E, 0x33, 0x34, 0x32, 0xFF,
        0xC0, 0x00, 0x0B, 0x08, 0x00, 0x01, 0x00, 0x01, 0x01, 0x01, 0x11, 0x00, 0xFF, 0xC4, 0x00,
        0x1F, 0x00, 0x00, 0x01, 0x05, 0x01, 0x01, 0x01, 0x01, 0x01, 0x01, 0x00, 0x00, 0x00, 0x00,
        0x00, 0x00, 0x00, 0x00, 0x01, 0x02, 0x03, 0x04, 0x05, 0x06, 0x07, 0x08, 0x09, 0x0A, 0x0B,
        0xFF, 0xC4, 0x00, 0xB5, 0x10, 0x00, 0x02, 0x01, 0x03, 0x03, 0x02, 0x04, 0x03, 0x05, 0x05,
        0x04, 0x04, 0x00, 0x00, 0x01, 0x7D, 0x01, 0x02, 0x03, 0x00, 0x04, 0x11, 0x05, 0x12, 0x21,
        0x31, 0x41, 0x06, 0x13, 0x51, 0x61, 0x07, 0x22, 0x71, 0x14, 0x32, 0x81, 0x91, 0xA1, 0x08,
        0x23, 0x42, 0xB1, 0xC1, 0x15, 0x52, 0xD1, 0xF0, 0x24, 0x33, 0x62, 0x72, 0x82, 0x09, 0x0A,
        0x16, 0x17, 0x18, 0x19, 0x1A, 0x25, 0x26, 0x27, 0x28, 0x29, 0x2A, 0x34, 0x35, 0x36, 0x37,
        0x38, 0x39, 0x3A, 0x43, 0x44, 0x45, 0x46, 0x47, 0x48, 0x49, 0x4A, 0x53, 0x54, 0x55, 0x56,
        0x57, 0x58, 0x59, 0x5A, 0x63, 0x64, 0x65, 0x66, 0x67, 0x68, 0x69, 0x6A, 0x73, 0x74, 0x75,
        0x76, 0x77, 0x78, 0x79, 0x7A, 0x83, 0x84, 0x85, 0x86, 0x87, 0x88, 0x89, 0x8A, 0x92, 0x93,
        0x94, 0x95, 0x96, 0x97, 0x98, 0x99, 0x9A, 0xA2, 0xA3, 0xA4, 0xA5, 0xA6, 0xA7, 0xA8, 0xA9,
        0xAA, 0xB2, 0xB3, 0xB4, 0xB5, 0xB6, 0xB7, 0xB8, 0xB9, 0xBA, 0xC2, 0xC3, 0xC4, 0xC5, 0xC6,
        0xC7, 0xC8, 0xC9, 0xCA, 0xD2, 0xD3, 0xD4, 0xD5, 0xD6, 0xD7, 0xD8, 0xD9, 0xDA, 0xE1, 0xE2,
        0xE3, 0xE4, 0xE5, 0xE6, 0xE7, 0xE8, 0xE9, 0xEA, 0xF1, 0xF2, 0xF3, 0xF4, 0xF5, 0xF6, 0xF7,
        0xF8, 0xF9, 0xFA, 0xFF, 0xDA, 0x00, 0x08, 0x01, 0x01, 0x00, 0x00, 0x3F, 0x00, 0x7B, 0x94,
        0x11, 0x00, 0x00, 0x00, 0x00, 0xFF, 0xD9,
    ]
}

/// A fake camera backend with one device whose controls live in memory.
pub struct DummyBackend {
    values: Vec<i32>,
    writes: Ghost<Seq<ControlWrite>>,
}

impl DummyBackend {
    /// The current value of every simulated control, by slot.
    pub closed spec fn values(&self) -> Seq<i32> {
        self.values@
    }

    /// One value per simulated control.
    pub closed spec fn well_formed(&self) -> bool {
        self.values@.len() == DUMMY_CONTROL_COUNT
    }

    /// All controls at their defaults.
    pub fn new() -> (r: DummyBackend)
        ensures
            r.well_formed(),
            forall|i: int| 0 <= i < DUMMY_CONTROL_COUNT ==> #[trigger] r.values()[i] == def_range(i).2,
            r.write_log() == Seq::<ControlWrite>::empty(),
    {
        let mut values: Vec<i32> = Vec::new();
        let mut i: usize = 0;
        while i < DUMMY_CONTROL_COUNT
            invariant
                i <= DUMMY_CONTROL_COUNT,
                values@.len() == i,
                forall|j: int| 0 <= j < i ==> #[trigger] values@[j] == def_range(j).2,
            decreases DUMMY_CONTROL_COUNT - i,
        {
            let d = control_def(i);
            values.push(d.4);
            i += 1;
        }
        DummyBackend { values, writes: Ghost(Seq::empty()) }
    }

    /// The simulated device's stable identifier.
    pub fn device_id() -> (r: DeviceId)
        ensures
            r@ == dummy_id(),
    {
        DeviceId::new("dummy:test:camera-001")
    }

    /// The JPEG that stands in for every frame.
    pub fn test_frame() -> (r: Vec<u8>)
        ensures
            r@.len() > 4,
            r@[0] == 0xFF && r@[1] == 0xD8,
            r@[r@.len() - 2] == 0xFF && r@[r@.len() - 1] == 0xD9,
    {
        test_pattern_jpeg()
    }

    fn is_own(id: &DeviceId) -> (r: bool)
        ensures
            r == (id@ == dummy_id()),
    {
        str_eq(id.as_str(), "dummy:test:camera-001")
    }
}

/// The descriptors the simulated camera reports for the given values.
pub open spec fn dummy_descriptors(values: Seq<i32>, ds: Seq<ControlDescriptor>) -> bool {
    &&& ds.len() == DUMMY_CONTROL_COUNT
    &&& forall|i: int|
        0 <= i < DUMMY_CONTROL_COUNT ==> {
            let d = #[trigger] ds[i];
            &&& d.id@ == crate::types::control_id_str(def_control(i))
            &&& d.control_type == ControlType::Slider
            &&& d.min == Some(def_range(i).0)
            &&& d.max == Some(def_range(i).1)
            &&& d.default == Some(def_range(i).2)
            &&& d.step == Some(1i32)
            &&& d.current == values[i]
            &&& d.well_formed()
        }
}

fn not_found_error(id: &DeviceId) -> (r: CameraError)
    ensures
        r is DeviceNotFound,
        r matches CameraError::DeviceNotFound(s) && s@ == id@,
{
    CameraError::DeviceNotFound(id.to_string())
}

impl DummyBackend {
    fn write_value(&mut self, id: &DeviceId, control: &ControlId, value: ControlValue) -> (r: Result<(), CameraError>)
        ensures
            final(self).writes == old(self).writes,
            old(self).write_answer(id@, *control, value@, r),
            id@ == dummy_id() && def_index(*control) is Some && old(self).well_formed() ==> {
                let i = def_index(*control)->0;
                &&& r is Ok
                &&& final(self).values() == old(self).values().update(
                    i,
                    clamp_opt(value@ as int, Some(def_range(i).0), Some(def_range(i).1)) as i32,
                )
            },
            id@ == dummy_id() && def_index(*control) is None ==> r matches Err(CameraError::ControlWrite(_)),
            final(self).well_formed() == old(self).well_formed(),
    {
        if !DummyBackend::is_own(id) {
            return Err(not_found_error(id));
        }
        match find_def(*control) {
            None => {
                let mut msg = String::new();
                push_str(&mut msg, "unsupported control: ");
                push_str(&mut msg, control.as_id_str());
                Err(CameraError::ControlWrite(msg))
            },
            Some(i) => {
                let d = control_def(i);
                let clamped = ControlValue::new(value.value(), Some(d.2), Some(d.3));
                if i < self.values.len() {
                    self.values.set(i, clamped.value());
                }
                Ok(())
            },
        }
    }
}

impl CameraBackend for DummyBackend {
    closed spec fn write_log(&self) -> Seq<ControlWrite> {
        self.writes@
    }

    open spec fn owns(&self, id: Seq<char>) -> bool {
        id == dummy_id()
    }

    open spec fn devices_answer(&self, r: Result<Vec<CameraDevice>, CameraError>) -> bool {
        &&& r is Ok
        &&& r->Ok_0@.len() == 1
        &&& r->Ok_0@[0].id@ == dummy_id()
        &&& r->Ok_0@[0].name@ == "Dummy Test Camera"@
        &&& r->Ok_0@[0].device_path@ == "dummy://test-camera"@
        &&& r->Ok_0@[0].is_connected
    }

    open spec fn controls_answer(&self, id: Seq<char>, r: Result<Vec<ControlDescriptor>, CameraError>) -> bool {
        if id != dummy_id() {
            not_found_for(&r, id)
        } else {
            self.well_formed() ==> r is Ok && dummy_descriptors(self.values(), r->Ok_0@)
        }
    }

    open spec fn control_answer(&self, id: Seq<char>, c: ControlId, r: Result<ControlValue, CameraError>) -> bool {
        if id != dummy_id() {
            not_found_for(&r, id)
        } else {
            match def_index(c) {
                None => r matches Err(CameraError::ControlQuery(_)),
                Some(i) => self.well_formed() ==> r is Ok && r->Ok_0@ as int == clamp_opt(
                    self.values()[i] as int,
                    Some(def_range(i).0),
                    Some(def_range(i).1),
                ),
            }
        }
    }

    open spec fn write_answer(&self, id: Seq<char>, c: ControlId, v: i32, r: Result<(), CameraError>) -> bool {
        if id != dummy_id() {
            not_found_for(&r, id)
        } else {
            match def_index(c) {
                None => r matches Err(CameraError::ControlWrite(_)),
                Some(i) => self.well_formed() ==> r is Ok,
            }
        }
    }

    open spec fn formats_answer(&self, id: Seq<char>, r: Result<Vec<FormatDescriptor>, CameraError>) -> bool {
        if id != dummy_id() {
            not_found_for(&r, id)
        } else {
            &&& r is Ok
            &&& r->Ok_0@.len() == 1
            &&& r->Ok_0@[0].width == 1 && r->Ok_0@[0].height == 1
            &&& r->Ok_0@[0].fps_milli == 30_000
            &&& r->Ok_0@[0].pixel_format@ == "JPEG"@
        }
    }

    fn enumerate_devices(&mut self) -> (r: Result<Vec<CameraDevice>, CameraError>)
        ensures
            r is Ok,
            r->Ok_0@.len() == 1,
            r->Ok_0@[0].id@ == dummy_id(),
            r->Ok_0@[0].name@ == "Dummy Test Camera"@,
            r->Ok_0@[0].device_path@ == "dummy://test-camera"@,
            r->Ok_0@[0].is_connected,
            final(self).values() == old(self).values(),
            final(self).well_formed() == old(self).well_formed(),
    {
        let mut v: Vec<CameraDevice> = Vec::new();
        v.push(
            CameraDevice {
                id: DummyBackend::device_id(),
                name: "Dummy Test Camera".to_string(),
                device_path: "dummy://test-camera".to_string(),
                is_connected: true,
            },
        );
        Ok(v)
    }

    /// The simulated camera never connects or disconnects.
    fn watch_hotplug<F: Fn(HotplugEvent) + Clone + Send + 'static>(&mut self, callback: F) -> (r: Result<(), CameraError>)
        ensures
            r is Ok,
            final(self).values() == old(self).values(),
            final(self).well_formed() == old(self).well_formed(),
    {
        Ok(())
    }

    fn get_controls(&mut self, id: &DeviceId) -> (r: Result<Vec<ControlDescriptor>, CameraError>)
        ensures
            final(self).values() == old(self).values(),
            final(self).well_formed() == old(self).well_formed(),
            id@ == dummy_id() && old(self).well_formed() ==> {
                &&& r is Ok
                &&& r->Ok_0@.len() == DUMMY_CONTROL_COUNT
                &&& forall|i: int|
                    0 <= i < DUMMY_CONTROL_COUNT ==> {
                        let d = #[trigger] r->Ok_0@[i];
                        &&& d.id@ == crate::types::control_id_str(def_control(i))
                        &&& d.control_type == ControlType::Slider
                        &&& d.min == Some(def_range(i).0)
                        &&& d.max == Some(def_range(i).1)
                        &&& d.default == Some(def_range(i).2)
                        &&& d.step == Some(1i32)
                        &&& d.current == old(self).values()[i]
                        &&& d.well_formed()
                    }
            },
    {
        if !DummyBackend::is_own(id) {
            return Err(not_found_error(id));
        }
        let mut out: Vec<ControlDescriptor> = Vec::new();
        let mut i: usize = 0;
        while i < DUMMY_CONTROL_COUNT
            invariant
                i <= DUMMY_CONTROL_COUNT,
                out@.len() == i,
                forall|j: int|
                    0 <= j < i ==> {
                        let d = #[trigger] out@[j];
                        &&& d.id@ == crate::types::control_id_str(def_control(j))
                        &&& d.control_type == ControlType::Slider
                        &&& d.min == Some(def_range(j).0)
                        &&& d.max == Some(def_range(j).1)
                        &&& d.default == Some(def_range(j).2)
                        &&& d.step == Some(1i32)
                        &&& (self.values@.len() == DUMMY_CONTROL_COUNT ==> d.current == self.values@[j])
                        &&& d.well_formed()
                    },
            decreases DUMMY_CONTROL_COUNT - i,
        {
            let d = control_def(i);
            let current = if i < self.values.len() {
                self.values[i]
            } else {
                d.4
            };
            out.push(
                ControlDescriptor {
                    id: d.0.as_id_str().to_string(),
                    name: d.1.to_string(),
                    control_type: ControlType::Slider,
                    group: d.5.to_string(),
                    min: Some(d.2),
                    max: Some(d.3),
                    step: Some(1),
                    default: Some(d.4),
                    current,
                    flags: ControlFlags { supports_auto: false, is_auto_enabled: false, is_read_only: false },
                    options: None,
                    supported: true,
                },
            );
            i += 1;
        }
        Ok(out)
    }

    fn get_control(&mut self, id: &DeviceId, control: &ControlId) -> (r: Result<ControlValue, CameraError>)
        ensures
            final(self).values() == old(self).values(),
            final(self).well_formed() == old(self).well_formed(),
            id@ == dummy_id() && def_index(*control) is Some && old(self).well_formed() ==> {
                let i = def_index(*control)->0;
                &&& r is Ok
                &&& r->Ok_0@ as int == clamp_opt(
                    old(self).values()[i] as int,
                    Some(def_range(i).0),
                    Some(def_range(i).1),
                )
            },
            id@ == dummy_id() && def_index(*control) is None ==> r matches Err(CameraError::ControlQuery(_)),
    {
        if !DummyBackend::is_own(id) {
            return Err(not_found_error(id));
        }
        match find_def(*control) {
            None => {
                let mut msg = String::new();
                push_str(&mut msg, "unknown control: ");
                push_str(&mut msg, control.as_id_str());
                Err(CameraError::ControlQuery(msg))
            },
            Some(i) => {
                let d = control_def(i);
                let v = if i < self.values.len() {
                    self.values[i]
                } else {
                    d.4
                };
                Ok(ControlValue::new(v, Some(d.2), Some(d.3)))
            },
        }
    }

    fn set_control(&mut self, id: &DeviceId, control: &ControlId, value: ControlValue) -> (r: Result<(), CameraError>)
        ensures
            id@ == dummy_id() && def_index(*control) is Some && old(self).well_formed() ==> {
                let i = def_index(*control)->0;
                &&& r is Ok
                &&& final(self).values() == old(self).values().update(
                    i,
                    clamp_opt(value@ as int, Some(def_range(i).0), Some(def_range(i).1)) as i32,
                )
            },
            id@ == dummy_id() && def_index(*control) is None ==> r matches Err(CameraError::ControlWrite(_)),
            final(self).well_formed() == old(self).well_formed(),
    {
        let r = self.write_value(id, control, value);
        self.writes = Ghost(self.writes@.push((id@, *control, value@, r is Ok)));
        r
    }

    fn get_formats(&mut self, id: &DeviceId) -> (r: Result<Vec<FormatDescriptor>, CameraError>)
        ensures
            final(self).values() == old(self).values(),
            final(self).well_formed() == old(self).well_formed(),
            id@ == dummy_id() ==> {
                &&& r is Ok
                &&& r->Ok_0@.len() == 1
                &&& r->Ok_0@[0].width == 1 && r->Ok_0@[0].height == 1
                &&& r->Ok_0@[0].fps_milli == 30_000
                &&& r->Ok_0@[0].pixel_format@ == "JPEG"@
            },
    {
        if !DummyBackend::is_own(id) {
            return Err(not_found_error(id));
        }
        let mut v: Vec<FormatDescriptor> = Vec::new();
        v.push(FormatDescriptor { width: 1, height: 1, fps_milli: 30_000, pixel_format: "JPEG".to_string() });
        Ok(v)
    }
}

} // verus!
