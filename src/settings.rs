//! Persisted per-device control settings: the in-memory store and the
//! dirty flag that tells the background writer a save is due.

use vstd::prelude::*;
use crate::text::str_eq;

verus! {

/// Saved settings of one camera: its friendly name and control values.
#[derive(Debug)]
pub struct CameraSettings {
    pub name: String,
    pub controls: Vec<(String, i32)>,
}

impl CameraSettings {
    /// No name and no saved controls.
    pub fn default() -> (r: CameraSettings)
        ensures
            r.name@ == Seq::<char>::empty(),
            r.controls@.len() == 0,
    {
        CameraSettings { name: String::new(), controls: Vec::new() }
    }
}

impl Clone for CameraSettings {
    fn clone(&self) -> (r: CameraSettings)
        ensures
            r.name@ == self.name@,
            controls_view(r.controls@) == controls_view(self.controls@),
            controls_map(controls_view(r.controls@)) == controls_map(controls_view(self.controls@)),
    {
        let mut controls: Vec<(String, i32)> = Vec::new();
        let mut i: usize = 0;
        while i < self.controls.len()
            invariant
                i <= self.controls@.len(),
                controls@.len() == i,
                forall|j: int| 0 <= j < i ==> (#[trigger] controls@[j]).0@ == self.controls@[j].0@ && controls@[j].1 == self.controls@[j].1,
            decreases self.controls@.len() - i,
        {
            let key = self.controls[i].0.clone();
            controls.push((key, self.controls[i].1));
            i += 1;
        }
        assert(controls_view(controls@) =~= controls_view(self.controls@));
        CameraSettings { name: self.name.clone(), controls }
    }
}

/// The saved control entries as plain values.
pub open spec fn controls_view(c: Seq<(String, i32)>) -> Seq<(Seq<char>, i32)> {
    Seq::new(c.len(), |i: int| (c[i].0@, c[i].1))
}

/// The saved controls as a map; a later entry for a key overrides an
/// earlier one.
pub open spec fn controls_map(c: Seq<(Seq<char>, i32)>) -> Map<Seq<char>, i32>
    decreases c.len(),
{
    if c.len() == 0 {
        Map::empty()
    } else {
        controls_map(c.drop_last()).insert(c.last().0, c.last().1)
    }
}

/// Result of resetting one control to its default.
#[derive(Debug, Clone, PartialEq, Eq)]
pub struct ResetResult {
    pub control_id: String,
    pub value: i32,
}

/// All saved settings, keyed by device identifier.
#[derive(Debug)]
pub struct SettingsFile {
    pub cameras: Vec<(String, CameraSettings)>,
}

impl SettingsFile {
    /// No saved cameras.
    pub fn default() -> (r: SettingsFile)
        ensures
            r.cameras@.len() == 0,
    {
        SettingsFile { cameras: Vec::new() }
    }
}

/// The settings of one device as plain values: name and saved controls.
pub type CameraView = (Seq<char>, Map<Seq<char>, i32>);

/// The saved cameras as a map; a later entry for a device overrides an
/// earlier one.
pub open spec fn cameras_map(c: Seq<(String, CameraSettings)>) -> Map<Seq<char>, CameraView>
    decreases c.len(),
{
    if c.len() == 0 {
        Map::empty()
    } else {
        cameras_map(c.drop_last()).insert(
            c.last().0@,
            (c.last().1.name@, controls_map(controls_view(c.last().1.controls@))),
        )
    }
}

/// Removes every control entry saved under `key`.
fn remove_control(c: &mut Vec<(String, i32)>, key: &str)
    ensures
        controls_map(controls_view(final(c)@)) == controls_map(controls_view(old(c)@)).remove(key@),
{
    let ghost orig = c@;
    let total = c.len();
    let mut kept: Vec<(String, i32)> = Vec::new();
    let mut used: usize = 0;
    assert(controls_view(orig.subrange(0, 0)) =~= Seq::<(Seq<char>, i32)>::empty());
    assert(controls_map(controls_view(kept@)) =~= controls_map(controls_view(orig.subrange(0, 0))).remove(key@));
    while c.len() > 0
        invariant
            total == orig.len(),
            used <= total,
            c@ == orig.subrange(used as int, total as int),
            controls_map(controls_view(kept@)) == controls_map(controls_view(orig.subrange(0, used as int))).remove(key@),
        decreases c@.len(),
    {
        let e = c.remove(0);
        proof {
            assert(controls_view(orig.subrange(0, used + 1)).drop_last() =~= controls_view(orig.subrange(0, used as int)));
            assert(c@ =~= orig.subrange(used + 1, total as int));
        }
        if !str_eq(e.0.as_str(), key) {
            let ghost before = kept@;
            kept.push(e);
            proof {
                assert(controls_view(kept@).drop_last() =~= controls_view(before));
                assert(controls_map(controls_view(kept@)) =~= controls_map(controls_view(orig.subrange(0, used + 1))).remove(key@));
            }
        } else {
            proof {
                assert(controls_map(controls_view(kept@)) =~= controls_map(controls_view(orig.subrange(0, used + 1))).remove(key@));
            }
        }
        used += 1;
    }
    assert(orig.subrange(0, total as int) =~= orig);
    *c = kept;
}

/// Removes every entry saved for `device`.
fn remove_camera_entries(c: &mut Vec<(String, CameraSettings)>, device: &str)
    ensures
        cameras_map(final(c)@) == cameras_map(old(c)@).remove(device@),
{
    let ghost orig = c@;
    let total = c.len();
    let mut kept: Vec<(String, CameraSettings)> = Vec::new();
    let mut used: usize = 0;
    assert(orig.subrange(0, 0) =~= Seq::<(String, CameraSettings)>::empty());
    assert(cameras_map(kept@) =~= cameras_map(orig.subrange(0, 0)).remove(device@));
    while c.len() > 0
        invariant
            total == orig.len(),
            used <= total,
            c@ == orig.subrange(used as int, total as int),
            cameras_map(kept@) == cameras_map(orig.subrange(0, used as int)).remove(device@),
        decreases c@.len(),
    {
        let e = c.remove(0);
        proof {
            assert(orig.subrange(0, used + 1).drop_last() =~= orig.subrange(0, used as int));
            assert(c@ =~= orig.subrange(used + 1, total as int));
        }
        if !str_eq(e.0.as_str(), device) {
            let ghost before = kept@;
            kept.push(e);
            proof {
                assert(kept@.drop_last() =~= before);
                assert(cameras_map(kept@) =~= cameras_map(orig.subrange(0, used + 1)).remove(device@));
            }
        } else {
            proof {
                assert(cameras_map(kept@) =~= cameras_map(orig.subrange(0, used + 1)).remove(device@));
            }
        }
        used += 1;
    }
    assert(orig.subrange(0, total as int) =~= orig);
    *c = kept;
}

/// The saved entry of a device, searched from the newest.
fn find_camera(c: &Vec<(String, CameraSettings)>, device: &str) -> (r: Option<usize>)
    ensures
        match r {
            Some(i) => i < c@.len() && cameras_map(c@).contains_key(device@) && cameras_map(c@)[device@] == (
                c@[i as int].1.name@,
                controls_map(controls_view(c@[i as int].1.controls@)),
            ),
            None => !cameras_map(c@).contains_key(device@),
        },
{
    let mut i: usize = c.len();
    assert(c@.subrange(0, i as int) =~= c@);
    while i > 0
        invariant
            i <= c@.len(),
            cameras_map(c@).contains_key(device@) == cameras_map(c@.subrange(0, i as int)).contains_key(device@),
            cameras_map(c@).contains_key(device@) ==> cameras_map(c@)[device@] == cameras_map(c@.subrange(0, i as int))[device@],
        decreases i,
    {
        proof {
            assert(c@.subrange(0, i as int).drop_last() =~= c@.subrange(0, i - 1));
        }
        if str_eq(c[i - 1].0.as_str(), device) {
            return Some(i - 1);
        }
        i -= 1;
    }
    None
}

/// In-memory settings with a dirty flag that the background writer takes
/// and clears.
#[derive(Debug)]
pub struct SettingsStore {
    data: SettingsFile,
    dirty: bool,
}

impl SettingsStore {
    /// The saved cameras as plain values.
    pub closed spec fn cameras(&self) -> Map<Seq<char>, CameraView> {
        cameras_map(self.data.cameras@)
    }

    /// A change has not been written yet.
    pub closed spec fn is_dirty(&self) -> bool {
        self.dirty
    }

    /// A clean store over settings read at startup.
    pub fn from_file(data: SettingsFile) -> (r: SettingsStore)
        ensures
            r.cameras() == cameras_map(data.cameras@),
            !r.is_dirty(),
    {
        SettingsStore { data, dirty: false }
    }

    /// An empty, clean store.
    pub fn new() -> (r: SettingsStore)
        ensures
            r.cameras() == Map::<Seq<char>, CameraView>::empty(),
            !r.is_dirty(),
    {
        SettingsStore { data: SettingsFile::default(), dirty: false }
    }

    /// A copy of the settings of a device.
    pub fn get_camera(&self, device_id: &str) -> (r: Option<CameraSettings>)
        ensures
            match r {
                Some(s) => self.cameras().contains_key(device_id@) && self.cameras()[device_id@] == (
                    s.name@,
                    controls_map(controls_view(s.controls@)),
                ),
                None => !self.cameras().contains_key(device_id@),
            },
    {
        match find_camera(&self.data.cameras, device_id) {
            Some(i) => Some(self.data.cameras[i].1.clone()),
            None => None,
        }
    }

    /// Saves a control value for a device, creating the device's entry if
    /// needed and refreshing its friendly name, and marks the store dirty.
    pub fn set_control(&mut self, device_id: &str, camera_name: &str, control_id: &str, value: i32)
        ensures
            final(self).is_dirty(),
            final(self).cameras() == old(self).cameras().insert(
                device_id@,
                (
                    camera_name@,
                    if old(self).cameras().contains_key(device_id@) {
                        old(self).cameras()[device_id@].1
                    } else {
                        Map::empty()
                    }.insert(control_id@, value),
                ),
            ),
    {
        let mut entry = match find_camera(&self.data.cameras, device_id) {
            Some(i) => self.data.cameras[i].1.clone(),
            None => CameraSettings::default(),
        };
        proof {
            assert(controls_map(controls_view(entry.controls@)) == if old(self).cameras().contains_key(device_id@) {
                old(self).cameras()[device_id@].1
            } else {
                Map::empty()
            }) by {
                if !old(self).cameras().contains_key(device_id@) {
                    assert(controls_view(entry.controls@) =~= Seq::<(Seq<char>, i32)>::empty());
                }
            }
        }
        entry.name = camera_name.to_string();
        remove_control(&mut entry.controls, control_id);
        let ghost before = entry.controls@;
        entry.controls.push((control_id.to_string(), value));
        proof {
            assert(controls_view(entry.controls@).drop_last() =~= controls_view(before));
            let prior = if old(self).cameras().contains_key(device_id@) {
                old(self).cameras()[device_id@].1
            } else {
                Map::empty()
            };
            assert(controls_map(controls_view(entry.controls@)) =~= prior.insert(control_id@, value));
        }
        remove_camera_entries(&mut self.data.cameras, device_id);
        let ghost cams_before = self.data.cameras@;
        self.data.cameras.push((device_id.to_string(), entry));
        proof {
            assert(self.data.cameras@.drop_last() =~= cams_before);
            assert(cameras_map(self.data.cameras@) =~= old(self).cameras().insert(
                device_id@,
                (
                    camera_name@,
                    if old(self).cameras().contains_key(device_id@) {
                        old(self).cameras()[device_id@].1
                    } else {
                        Map::empty()
                    }.insert(control_id@, value),
                ),
            ));
        }
        self.dirty = true;
    }

    /// Forgets every saved setting of a device and marks the store dirty.
    pub fn remove_camera(&mut self, device_id: &str)
        ensures
            final(self).is_dirty(),
            final(self).cameras() == old(self).cameras().remove(device_id@),
    {
        remove_camera_entries(&mut self.data.cameras, device_id);
        self.dirty = true;
    }

    /// Takes the dirty flag and clears it: whether a write is due.
    pub fn take_dirty(&mut self) -> (r: bool)
        ensures
            r == old(self).is_dirty(),
            !final(self).is_dirty(),
            final(self).cameras() == old(self).cameras(),
    {
        let d = self.dirty;
        self.dirty = false;
        d
    }

    /// A copy of all saved settings, for writing out.
    pub fn snapshot(&self) -> (r: SettingsFile)
        ensures
            cameras_map(r.cameras@) == self.cameras(),
    {
        let mut out: Vec<(String, CameraSettings)> = Vec::new();
        let mut i: usize = 0;
        while i < self.data.cameras.len()
            invariant
                i <= self.data.cameras@.len(),
                cameras_map(out@) == cameras_map(self.data.cameras@.subrange(0, i as int)),
            decreases self.data.cameras@.len() - i,
        {
            let ghost before = out@;
            out.push((self.data.cameras[i].0.clone(), self.data.cameras[i].1.clone()));
            proof {
                assert(out@.drop_last() =~= before);
                assert(self.data.cameras@.subrange(0, i + 1).drop_last() =~= self.data.cameras@.subrange(0, i as int));
                assert(cameras_map(out@) =~= cameras_map(self.data.cameras@.subrange(0, i + 1)));
            }
            i += 1;
        }
        assert(self.data.cameras@.subrange(0, i as int) =~= self.data.cameras@);
        SettingsFile { cameras: out }
    }
}

} // verus!
