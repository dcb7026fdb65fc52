//! The native OS camera backend: devices from the system's video-input
//! enumeration, controls from its camera-control and image-processing
//! property groups, and hot-plug by diffing enumerations.

use vstd::prelude::*;
use crate::backend::{device_ids, not_found, not_found_for, CameraBackend, ControlWrite};
use crate::error::CameraError;
use crate::text::{push_char, push_hex_fixed, push_str, str_eq};
use crate::types::{
    events_view, tagged_missing,
    control_display_name, control_group, control_id_str, device_id_for_path,
    CameraDevice, ControlDescriptor, ControlFlags, ControlId, ControlType, ControlValue, DeviceId,
    FormatDescriptor, HotplugEvent,
};

verus! {

/// Friendly name and transport path of one enumerated video input.
#[derive(Debug)]
pub struct RawDeviceInfo {
    pub friendly_name: String,
    pub device_path: String,
}

/// Range, default, current value and flag masks of one control as the OS
/// reports them.
#[derive(Debug, Clone, Copy, PartialEq, Eq, Structural)]
pub struct RawControlData {
    pub control_id: ControlId,
    pub min: i32,
    pub max: i32,
    pub step: i32,
    pub default: i32,
    pub current: i32,
    pub caps_flags: i32,
    pub cur_flags: i32,
}

/// Access to the OS video-input devices.
pub trait DeviceEnumerator {
    /// Every video input the system lists.
    fn enumerate_raw(&mut self) -> Result<Vec<RawDeviceInfo>, CameraError>;

    /// The controls of the device at `device_path`.
    fn query_controls(&mut self, device_path: &str) -> Result<Vec<RawControlData>, CameraError>;

    /// Writes one control of the device at `device_path` in manual mode.
    fn write_control(&mut self, device_path: &str, control: ControlId, value: i32) -> Result<(), CameraError>;

    /// The formats of the device at `device_path`.
    fn query_formats(&mut self, device_path: &str) -> Result<Vec<FormatDescriptor>, CameraError>;

    /// Subscribes to the system's device-interface notifications; on each
    /// one the subscriber re-enumerates, diffs against the known devices
    /// (`diff_devices`) and hands each event to `callback`.
    fn watch_device_changes<F: Fn(HotplugEvent) + Clone + Send + 'static>(&mut self, callback: F) -> Result<(), CameraError>;
}

/// Index of a control in the camera-control property group.
pub open spec fn camera_property(id: ControlId) -> Option<i32> {
    match id {
        ControlId::Pan => Some(0),
        ControlId::Tilt => Some(1),
        ControlId::Roll => Some(2),
        ControlId::Zoom => Some(3),
        ControlId::Exposure => Some(4),
        ControlId::Iris => Some(5),
        ControlId::Focus => Some(6),
        _ => None,
    }
}

/// Index of a control in the image-processing property group.
pub open spec fn procamp_property(id: ControlId) -> Option<i32> {
    match id {
        ControlId::Brightness => Some(0),
        ControlId::Contrast => Some(1),
        ControlId::Hue => Some(2),
        ControlId::Saturation => Some(3),
        ControlId::Sharpness => Some(4),
        ControlId::Gamma => Some(5),
        ControlId::ColorEnable => Some(6),
        ControlId::WhiteBalance => Some(7),
        ControlId::BacklightCompensation => Some(8),
        ControlId::Gain => Some(9),
        _ => None,
    }
}

/// The camera-control property index of a control, if it belongs there.
pub fn control_id_to_camera_property(id: &ControlId) -> (r: Option<i32>)
    ensures
        r == camera_property(*id),
{
    match id {
        ControlId::Pan => Some(0),
        ControlId::Tilt => Some(1),
        ControlId::Roll => Some(2),
        ControlId::Zoom => Some(3),
        ControlId::Exposure => Some(4),
        ControlId::Iris => Some(5),
        ControlId::Focus => Some(6),
        _ => None,
    }
}

/// The image-processing property index of a control, if it belongs there.
pub fn control_id_to_procamp_property(id: &ControlId) -> (r: Option<i32>)
    ensures
        r == procamp_property(*id),
{
    match id {
        ControlId::Brightness => Some(0),
        ControlId::Contrast => Some(1),
        ControlId::Hue => Some(2),
        ControlId::Saturation => Some(3),
        ControlId::Sharpness => Some(4),
        ControlId::Gamma => Some(5),
        ControlId::ColorEnable => Some(6),
        ControlId::WhiteBalance => Some(7),
        ControlId::BacklightCompensation => Some(8),
        ControlId::Gain => Some(9),
        _ => None,
    }
}

/// Flags from the OS masks: bit 0 of the capability mask says auto is
/// supported, bit 0 of the current mask says auto is active.
pub fn flags_to_control_flags(caps_flags: i32, cur_flags: i32) -> (r: ControlFlags)
    ensures
        r.supports_auto == (caps_flags % 2 != 0),
        r.is_auto_enabled == (cur_flags % 2 != 0),
        !r.is_read_only,
{
    let caps_bit = caps_flags & 1;
    let cur_bit = cur_flags & 1;
    assert(caps_bit == 0 <==> caps_flags % 2 == 0) by (bit_vector)
        requires
            caps_bit == caps_flags & 1,
    ;
    assert(cur_bit == 0 <==> cur_flags % 2 == 0) by (bit_vector)
        requires
            cur_bit == cur_flags & 1,
    ;
    ControlFlags { supports_auto: caps_bit != 0, is_auto_enabled: cur_bit != 0, is_read_only: false }
}

/// A descriptor from raw OS control data: a [0, 1] range is a toggle,
/// anything else a slider.
pub fn make_control_descriptor(data: RawControlData) -> (d: ControlDescriptor)
    ensures
        d.id@ == control_id_str(data.control_id),
        d.name@ == control_display_name(data.control_id),
        d.group@ == control_group(data.control_id),
        d.control_type == if data.min == 0 && data.max == 1 {
            ControlType::Toggle
        } else {
            ControlType::Slider
        },
        d.min == Some(data.min),
        d.max == Some(data.max),
        d.step == Some(data.step),
        d.default == Some(data.default),
        d.current == data.current,
        d.flags.supports_auto == (data.caps_flags % 2 != 0),
        d.flags.is_auto_enabled == (data.cur_flags % 2 != 0),
        !d.flags.is_read_only,
        d.options is None,
        d.supported,
{
    let control_type = if data.min == 0 && data.max == 1 {
        ControlType::Toggle
    } else {
        ControlType::Slider
    };
    ControlDescriptor {
        id: data.control_id.as_id_str().to_string(),
        name: data.control_id.display_name().to_string(),
        control_type,
        group: data.control_id.group().to_string(),
        min: Some(data.min),
        max: Some(data.max),
        step: Some(data.step),
        default: Some(data.default),
        current: data.current,
        flags: flags_to_control_flags(data.caps_flags, data.cur_flags),
        options: None,
        supported: true,
    }
}

/// A printable ASCII character other than space.
pub open spec fn is_graphic(b: u8) -> bool {
    0x21 <= b <= 0x7E
}

/// The FourCC text of a media subtype's first field: its four little-endian
/// bytes when all are printable, else eight uppercase hex digits.
pub open spec fn fourcc_text(d1: u32) -> Seq<char> {
    let b0 = (d1 % 0x100) as u8;
    let b1 = ((d1 / 0x100) % 0x100) as u8;
    let b2 = ((d1 / 0x10000) % 0x100) as u8;
    let b3 = (d1 / 0x1000000) as u8;
    if is_graphic(b0) && is_graphic(b1) && is_graphic(b2) && is_graphic(b3) {
        seq![b0 as char, b1 as char, b2 as char, b3 as char]
    } else {
        crate::text::hex_fixed(d1 as nat, 8, true)
    }
}

/// Converts a media subtype's first field to its FourCC text.
pub fn fourcc_to_string(data1: u32) -> (r: String)
    ensures
        r@ == fourcc_text(data1),
{
    let b0 = (data1 % 0x100) as u8;
    let b1 = ((data1 / 0x100) % 0x100) as u8;
    let b2 = ((data1 / 0x10000) % 0x100) as u8;
    let b3 = (data1 / 0x1000000) as u8;
    let graphic = 0x21 <= b0 && b0 <= 0x7E && 0x21 <= b1 && b1 <= 0x7E && 0x21 <= b2 && b2 <= 0x7E
        && 0x21 <= b3 && b3 <= 0x7E;
    let mut s = String::new();
    if graphic {
        push_char(&mut s, b0 as char);
        push_char(&mut s, b1 as char);
        push_char(&mut s, b2 as char);
        push_char(&mut s, b3 as char);
    } else {
        push_hex_fixed(&mut s, data1 as u64, 8, true);
    }
    assert(s@ =~= fourcc_text(data1));
    s
}

/// The paths (keys) of a keyed device list.
pub open spec fn keys_of(v: Seq<(String, CameraDevice)>) -> Seq<Seq<char>> {
    Seq::new(v.len(), |i: int| v[i].0@)
}

/// The `(key, device id)` pairs of a keyed device list.
pub open spec fn entries_of(v: Seq<(String, CameraDevice)>) -> Seq<(Seq<char>, Seq<char>)> {
    Seq::new(v.len(), |i: int| (v[i].0@, v[i].1.id@))
}

fn has_key(v: &Vec<(String, CameraDevice)>, key: &String) -> (r: bool)
    ensures
        r == keys_of(v@).contains(key@),
{
    let mut i: usize = 0;
    while i < v.len()
        invariant
            i <= v@.len(),
            forall|j: int| 0 <= j < i ==> v@[j].0@ != key@,
        decreases v@.len() - i,
    {
        if v[i].0 == *key {
            assert(keys_of(v@)[i as int] == key@);
            return true;
        }
        i += 1;
    }
    assert(!keys_of(v@).contains(key@)) by {
        if keys_of(v@).contains(key@) {
            let j = choose|j: int| 0 <= j < keys_of(v@).len() && keys_of(v@)[j] == key@;
            assert(v@[j].0@ == key@);
        }
    }
    false
}

/// Compares a fresh enumeration with the known devices, keyed by path:
/// a `Connected` event for each new path, in the fresh order, then a
/// `Disconnected` event for each vanished path, in the known order. The
/// known devices become the fresh ones.
pub fn diff_devices(known: &mut Vec<(String, CameraDevice)>, current: Vec<(String, CameraDevice)>) -> (events: Vec<HotplugEvent>)
    ensures
        final(known)@ == current@,
        forall|k: int|
            0 <= k < events@.len() ==> match #[trigger] events@[k] {
                HotplugEvent::Connected(d) => exists|j: int|
                    0 <= j < current@.len() && !keys_of(old(known)@).contains(current@[j].0@) && d.same_as(
                        &current@[j].1,
                    ),
                HotplugEvent::Disconnected { id } => exists|j: int|
                    0 <= j < old(known)@.len() && !keys_of(current@).contains(old(known)@[j].0@)
                        && id@ == old(known)@[j].1.id@,
            },
        events_view(events@) == tagged_missing(entries_of(current@), keys_of(old(known)@), true) + tagged_missing(
            entries_of(old(known)@),
            keys_of(current@),
            false,
        ),
{
    let mut events: Vec<HotplugEvent> = Vec::new();
    let mut i: usize = 0;
    while i < current.len()
        invariant
            i <= current@.len(),
            *known == *old(known),
            events_view(events@) == tagged_missing(entries_of(current@).subrange(0, i as int), keys_of(old(known)@), true),
            forall|k: int|
                0 <= k < events@.len() ==> match #[trigger] events@[k] {
                    HotplugEvent::Connected(d) => exists|j: int|
                        0 <= j < current@.len() && !keys_of(old(known)@).contains(current@[j].0@)
                            && d.same_as(&current@[j].1),
                    HotplugEvent::Disconnected { id } => false,
                },
        decreases current@.len() - i,
    {
        let ghost ev0 = events@;
        proof {
            assert(entries_of(current@).subrange(0, i + 1).drop_last() =~= entries_of(current@).subrange(0, i as int));
        }
        if !has_key(known, &current[i].0) {
            let d = current[i].1.clone();
            events.push(HotplugEvent::Connected(d));
            proof {
                assert(events_view(events@) =~= events_view(ev0).push((true, current@[i as int].1.id@)));
            }
        }
        i += 1;
    }
    assert(entries_of(current@).subrange(0, i as int) =~= entries_of(current@));
    let ghost first = events_view(events@);
    let base = events.len();
    let mut k: usize = 0;
    while k < known.len()
        invariant
            k <= known@.len(),
            *known == *old(known),
            base <= events@.len(),
            base == first.len(),
            first == tagged_missing(entries_of(current@), keys_of(old(known)@), true),
            events_view(events@) == first + tagged_missing(entries_of(old(known)@).subrange(0, k as int), keys_of(current@), false),
            forall|q: int|
                0 <= q < events@.len() ==> match #[trigger] events@[q] {
                    HotplugEvent::Connected(d) => exists|j: int|
                        0 <= j < current@.len() && !keys_of(old(known)@).contains(current@[j].0@)
                            && d.same_as(&current@[j].1),
                    HotplugEvent::Disconnected { id } => exists|j: int|
                        0 <= j < old(known)@.len() && !keys_of(current@).contains(old(known)@[j].0@)
                            && id@ == old(known)@[j].1.id@,
                },
        decreases known@.len() - k,
    {
        let ghost ev0 = events@;
        proof {
            assert(entries_of(old(known)@).subrange(0, k + 1).drop_last() =~= entries_of(old(known)@).subrange(0, k as int));
        }
        if !has_key(&current, &known[k].0) {
            let id = known[k].1.id.clone();
            events.push(HotplugEvent::Disconnected { id });
            proof {
                assert(events_view(events@) =~= events_view(ev0).push((false, old(known)@[k as int].1.id@)));
            }
        }
        k += 1;
    }
    assert(entries_of(old(known)@).subrange(0, k as int) =~= entries_of(old(known)@));
    *known = current;
    events
}

/// Native camera backend over a device enumerator.
pub struct WindowsBackend<E: DeviceEnumerator> {
    enumerator: E,
    known_devices: Vec<CameraDevice>,
    writes: Ghost<Seq<ControlWrite>>,
}

/// The identifier of a raw device: derived from its path, or `name:` and
/// its friendly name when it has no path.
pub open spec fn raw_device_id(name: Seq<char>, path: Seq<char>) -> Seq<char> {
    if path.len() == 0 {
        "name:"@ + name
    } else {
        device_id_for_path(path)
    }
}

impl<E: DeviceEnumerator> WindowsBackend<E> {
    /// Identifiers of the devices of the last enumeration.
    pub closed spec fn known_ids(&self) -> Seq<Seq<char>> {
        device_ids(self.known_devices@)
    }

    /// A backend over a given enumerator, knowing no devices yet.
    pub fn with_enumerator(enumerator: E) -> (r: WindowsBackend<E>)
        ensures
            r.known_ids() == Seq::<Seq<char>>::empty(),
            r.write_log() == Seq::<ControlWrite>::empty(),
    {
        let r = WindowsBackend { enumerator, known_devices: Vec::new(), writes: Ghost(Seq::empty()) };
        assert(r.known_ids() =~= Seq::<Seq<char>>::empty());
        r
    }

    /// The device record of a raw enumeration entry.
    pub fn make_device(raw: &RawDeviceInfo) -> (d: CameraDevice)
        ensures
            d.id@ == raw_device_id(raw.friendly_name@, raw.device_path@),
            d.name@ == raw.friendly_name@,
            d.device_path@ == raw.device_path@,
            d.is_connected,
    {
        let id = if raw.device_path.as_str().unicode_len() == 0 {
            let mut s = String::new();
            push_str(&mut s, "name:");
            push_str(&mut s, raw.friendly_name.as_str());
            DeviceId::from_string(s)
        } else {
            DeviceId::from_device_path(raw.device_path.as_str())
        };
        CameraDevice {
            id,
            name: raw.friendly_name.clone(),
            device_path: raw.device_path.clone(),
            is_connected: true,
        }
    }

    /// The transport path of a known device.
    fn find_path(&self, id: &DeviceId) -> (r: Result<String, CameraError>)
        ensures
            r is Ok <==> self.known_ids().contains(id@),
            r is Err ==> not_found_for(&r, id@),
    {
        let mut i: usize = 0;
        while i < self.known_devices.len()
            invariant
                i <= self.known_devices@.len(),
                forall|j: int| 0 <= j < i ==> self.known_devices@[j].id@ != id@,
            decreases self.known_devices@.len() - i,
        {
            if str_eq(self.known_devices[i].id.as_str(), id.as_str()) {
                assert(self.known_ids()[i as int] == id@);
                return Ok(self.known_devices[i].device_path.clone());
            }
            i += 1;
        }
        assert(!self.known_ids().contains(id@)) by {
            if self.known_ids().contains(id@) {
                let j = choose|j: int| 0 <= j < self.known_ids().len() && self.known_ids()[j] == id@;
                assert(self.known_devices@[j].id@ == id@);
            }
        }
        Err(CameraError::DeviceNotFound(id.to_string()))
    }
}

impl<E: DeviceEnumerator> CameraBackend for WindowsBackend<E> {
    closed spec fn write_log(&self) -> Seq<ControlWrite> {
        self.writes@
    }

    closed spec fn owns(&self, id: Seq<char>) -> bool {
        self.known_ids().contains(id)
    }

    open spec fn devices_answer(&self, r: Result<Vec<CameraDevice>, CameraError>) -> bool {
        r is Ok ==> forall|k: int| 0 <= k < r->Ok_0@.len() ==> (#[trigger] r->Ok_0@[k]).is_connected
    }

    open spec fn controls_answer(&self, id: Seq<char>, r: Result<Vec<ControlDescriptor>, CameraError>) -> bool {
        !self.known_ids().contains(id) ==> not_found_for(&r, id)
    }

    open spec fn control_answer(&self, id: Seq<char>, c: ControlId, r: Result<ControlValue, CameraError>) -> bool {
        !self.known_ids().contains(id) ==> not_found_for(&r, id)
    }

    open spec fn write_answer(&self, id: Seq<char>, c: ControlId, v: i32, r: Result<(), CameraError>) -> bool {
        !self.known_ids().contains(id) ==> not_found_for(&r, id)
    }

    open spec fn formats_answer(&self, id: Seq<char>, r: Result<Vec<FormatDescriptor>, CameraError>) -> bool {
        &&& (!self.known_ids().contains(id) ==> not_found_for(&r, id))
        &&& (r is Ok ==> crate::formats::formats_sorted(r->Ok_0@))
    }

    /// Registration goes to the enumerator's device-change subscription.
    fn watch_hotplug<F: Fn(HotplugEvent) + Clone + Send + 'static>(&mut self, callback: F) -> (r: Result<(), CameraError>)
        ensures
            final(self).known_ids() == old(self).known_ids(),
    {
        self.enumerator.watch_device_changes(callback)
    }

    /// The enumerated devices, which become the known devices.
    fn enumerate_devices(&mut self) -> (r: Result<Vec<CameraDevice>, CameraError>)
        ensures
            r is Ok ==> final(self).known_ids() == device_ids(r->Ok_0@),
            r is Ok ==> forall|k: int| 0 <= k < r->Ok_0@.len() ==> (#[trigger] r->Ok_0@[k]).is_connected,
            r is Err ==> final(self).known_ids() == old(self).known_ids(),
    {
        let raw = self.enumerator.enumerate_raw()?;
        let mut devices: Vec<CameraDevice> = Vec::new();
        let mut i: usize = 0;
        while i < raw.len()
            invariant
                i <= raw@.len(),
                devices@.len() == i,
                forall|k: int| 0 <= k < i ==> (#[trigger] devices@[k]).is_connected,
            decreases raw@.len() - i,
        {
            devices.push(Self::make_device(&raw[i]));
            i += 1;
        }
        let known = crate::types::clone_devices(&devices);
        self.known_devices = known;
        assert(self.known_ids() =~= device_ids(devices@));
        Ok(devices)
    }

    /// The controls of a known device, as the OS reports them.
    fn get_controls(&mut self, id: &DeviceId) -> (r: Result<Vec<ControlDescriptor>, CameraError>)
        ensures
            final(self).known_ids() == old(self).known_ids(),
    {
        let path = self.find_path(id)?;
        let raw = self.enumerator.query_controls(path.as_str())?;
        let mut out: Vec<ControlDescriptor> = Vec::new();
        let mut i: usize = 0;
        while i < raw.len()
            invariant
                i <= raw@.len(),
            decreases raw@.len() - i,
        {
            out.push(make_control_descriptor(raw[i]));
            i += 1;
        }
        Ok(out)
    }

    /// The value of one control, clamped to its reported range; a control
    /// the device lacks is a `ControlQuery` error.
    fn get_control(&mut self, id: &DeviceId, control: &ControlId) -> (r: Result<ControlValue, CameraError>)
        ensures
            final(self).known_ids() == old(self).known_ids(),
    {
        let controls = self.get_controls(id)?;
        let mut i: usize = 0;
        while i < controls.len()
            invariant
                i <= controls@.len(),
                self.write_log() == old(self).write_log(),
                self.known_ids() == old(self).known_ids(),
                old(self).owns(id@),
            decreases controls@.len() - i,
        {
            if str_eq(controls[i].id.as_str(), control.as_id_str()) {
                return Ok(ControlValue::new(controls[i].current, controls[i].min, controls[i].max));
            }
            i += 1;
        }
        let mut s = String::new();
        push_str(&mut s, "Control ");
        push_str(&mut s, control.as_id_str());
        push_str(&mut s, " not found on device ");
        push_str(&mut s, id.as_str());
        Err(CameraError::ControlQuery(s))
    }

    /// Writes one control of a known device.
    fn set_control(&mut self, id: &DeviceId, control: &ControlId, value: ControlValue) -> (r: Result<(), CameraError>)
        ensures
            final(self).known_ids() == old(self).known_ids(),
    {
        let r = match self.find_path(id) {
            Ok(path) => self.enumerator.write_control(path.as_str(), *control, value.value()),
            Err(e) => Err(e),
        };
        self.writes = Ghost(self.writes@.push((id@, *control, value@, r is Ok)));
        r
    }

    /// The formats of a known device, sorted with duplicates removed.
    fn get_formats(&mut self, id: &DeviceId) -> (r: Result<Vec<FormatDescriptor>, CameraError>)
        ensures
            final(self).known_ids() == old(self).known_ids(),
            r is Ok ==> crate::formats::formats_sorted(r->Ok_0@),
    {
        let path = self.find_path(id)?;
        let formats = self.enumerator.query_formats(path.as_str())?;
        Ok(crate::formats::sort_and_dedup_formats(formats))
    }
}

} // verus!
