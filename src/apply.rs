//! Reapplying saved control values to a camera, and resetting a camera to
//! its defaults.

use vstd::prelude::*;
use crate::backend::{CameraBackend, ControlWrite};
use crate::error::CameraError;
use crate::settings::{controls_map, controls_view, SettingsStore};
use crate::text::{push_char, push_str, str_eq};
use crate::types::{clamp_opt, control_from_str, ControlDescriptor, ControlId, ControlValue, DeviceId};

verus! {

/// The range of the first descriptor whose identifier is `key`.
pub open spec fn find_descriptor(descs: Seq<ControlDescriptor>, key: Seq<char>) -> Option<(Option<i32>, Option<i32>)>
    decreases descs.len(),
{
    if descs.len() == 0 {
        None
    } else if descs[0].id@ == key {
        Some((descs[0].min, descs[0].max))
    } else {
        find_descriptor(descs.drop_first(), key)
    }
}

proof fn lemma_find_descriptor_first(descs: Seq<ControlDescriptor>, key: Seq<char>, i: int)
    requires
        0 <= i <= descs.len(),
        forall|j: int| 0 <= j < i ==> descs[j].id@ != key,
    ensures
        i < descs.len() && descs[i].id@ == key ==> find_descriptor(descs, key) == Some((descs[i].min, descs[i].max)),
        i == descs.len() ==> find_descriptor(descs, key) is None,
    decreases i,
{
    if i > 0 {
        lemma_find_descriptor_first(descs.drop_first(), key, i - 1);
    }
}

/// Range, default and read-only flag of the first descriptor whose
/// identifier is `key`.
pub open spec fn descriptor_info(descs: Seq<ControlDescriptor>, key: Seq<char>) -> Option<(Option<i32>, Option<i32>, Option<i32>, bool)>
    decreases descs.len(),
{
    if descs.len() == 0 {
        None
    } else if descs[0].id@ == key {
        Some((descs[0].min, descs[0].max, descs[0].default, descs[0].flags.is_read_only))
    } else {
        descriptor_info(descs.drop_first(), key)
    }
}

proof fn lemma_descriptor_info_first(descs: Seq<ControlDescriptor>, key: Seq<char>, i: int)
    requires
        0 <= i <= descs.len(),
        forall|j: int| 0 <= j < i ==> descs[j].id@ != key,
    ensures
        i < descs.len() && descs[i].id@ == key ==> descriptor_info(descs, key) == Some(
            (descs[i].min, descs[i].max, descs[i].default, descs[i].flags.is_read_only),
        ),
        i == descs.len() ==> descriptor_info(descs, key) is None,
    decreases i,
{
    if i > 0 {
        lemma_descriptor_info_first(descs.drop_first(), key, i - 1);
    }
}

fn find_descriptor_exec(descs: &Vec<ControlDescriptor>, key: &str) -> (r: Option<usize>)
    ensures
        match r {
            Some(i) => i < descs@.len() && find_descriptor(descs@, key@) == Some((descs@[i as int].min, descs@[i as int].max))
                && descriptor_info(descs@, key@) == Some((descs@[i as int].min, descs@[i as int].max, descs@[i as int].default, descs@[i as int].flags.is_read_only)),
            None => find_descriptor(descs@, key@) is None && descriptor_info(descs@, key@) is None,
        },
{
    let mut i: usize = 0;
    while i < descs.len()
        invariant
            i <= descs@.len(),
            forall|j: int| 0 <= j < i ==> descs@[j].id@ != key@,
        decreases descs@.len() - i,
    {
        if str_eq(descs[i].id.as_str(), key) {
            proof {
                lemma_find_descriptor_first(descs@, key@, i as int);
                lemma_descriptor_info_first(descs@, key@, i as int);
            }
            return Some(i);
        }
        i += 1;
    }
    proof {
        lemma_find_descriptor_first(descs@, key@, i as int);
        lemma_descriptor_info_first(descs@, key@, i as int);
    }
    None
}

/// The error message for an unknown control identifier.
pub open spec fn unknown_control_message(s: Seq<char>) -> Seq<char> {
    "Unknown control: '"@ + s + "'"@
}

/// Parses a control identifier, with a message for users when it is unknown.
pub fn parse_control_id(s: &str) -> (r: Result<ControlId, String>)
    ensures
        match control_from_str(s@) {
            Some(c) => r == Ok::<ControlId, String>(c),
            None => r is Err && r->Err_0@ == unknown_control_message(s@),
        },
{
    match ControlId::from_str_id(s) {
        Some(c) => Ok(c),
        None => {
            let mut m = String::new();
            push_str(&mut m, "Unknown control: '");
            push_str(&mut m, s);
            push_char(&mut m, '\'');
            proof {
                reveal_strlit("'");
            }
            assert(m@ =~= unknown_control_message(s@));
            Err(m)
        },
    }
}

/// Message for a control that the device does not describe.
pub open spec fn unsupported_message(c: ControlId) -> Seq<char> {
    "Control '"@ + crate::types::control_display_name(c) + "' not supported on this device"@
}

fn quoted_message(prefix: &str, c: ControlId, suffix: &str) -> (r: String)
    ensures
        r@ == prefix@ + crate::types::control_display_name(c) + suffix@,
{
    let mut m = String::new();
    push_str(&mut m, prefix);
    push_str(&mut m, c.display_name());
    push_str(&mut m, suffix);
    m
}

/// One planned write: saved key, saved value, control, value to write.
pub type PlanItem = (Seq<char>, i32, ControlId, i32);

/// The writes that reapplying `saved` performs, given the device's
/// descriptors: one per saved entry, in order, whose identifier names a
/// control and matches a descriptor, with the value clamped to that
/// descriptor's range.
pub open spec fn apply_plan(saved: Seq<(Seq<char>, i32)>, descs: Seq<ControlDescriptor>) -> Seq<PlanItem>
    decreases saved.len(),
{
    if saved.len() == 0 {
        Seq::empty()
    } else {
        let rest = apply_plan(saved.drop_last(), descs);
        let k = saved.last().0;
        let v = saved.last().1;
        match control_from_str(k) {
            Some(c) => match find_descriptor(descs, k) {
                Some(range) => rest.push((k, v, c, clamp_opt(v as int, range.0, range.1) as i32)),
                None => rest,
            },
            None => rest,
        }
    }
}

/// `after` is `before` followed by one write per plan item, in order, on
/// device `dev`, each with its own outcome.
pub open spec fn wrote_plan(before: Seq<ControlWrite>, after: Seq<ControlWrite>, dev: Seq<char>, plan: Seq<PlanItem>) -> bool {
    &&& after.len() == before.len() + plan.len()
    &&& after.subrange(0, before.len() as int) == before
    &&& forall|k: int|
        0 <= k < plan.len() ==> {
            let w = #[trigger] after[before.len() + k];
            w.0 == dev && w.1 == plan[k].2 && w.2 == plan[k].3
        }
}

/// The `(key, saved value)` of each plan item whose write, in `writes`,
/// succeeded, in plan order.
pub open spec fn applied_pairs(plan: Seq<PlanItem>, writes: Seq<ControlWrite>) -> Seq<(Seq<char>, i32)>
    decreases plan.len(),
{
    if plan.len() == 0 || writes.len() < plan.len() {
        Seq::empty()
    } else {
        let rest = applied_pairs(plan.drop_last(), writes.subrange(0, plan.len() - 1));
        if writes[plan.len() - 1].3 {
            rest.push((plan.last().0, plan.last().1))
        } else {
            rest
        }
    }
}

/// The pairs as plain values.
pub open spec fn pairs_view(v: Seq<(String, i32)>) -> Seq<(Seq<char>, i32)> {
    Seq::new(v.len(), |i: int| (v[i].0@, v[i].1))
}

/// Reapplying never writes a control whose saved identifier names no
/// control or matches no descriptor: every planned write comes from a saved
/// entry that parses to the written control and has a descriptor.
pub proof fn lemma_plan_writes_only_known_controls(saved: Seq<(Seq<char>, i32)>, descs: Seq<ControlDescriptor>, w: int)
    requires
        0 <= w < apply_plan(saved, descs).len(),
    ensures
        exists|k: int|
            0 <= k < saved.len() && control_from_str(#[trigger] saved[k].0) == Some(apply_plan(saved, descs)[w].2)
                && find_descriptor(descs, saved[k].0) is Some && saved[k].0 == apply_plan(saved, descs)[w].0,
    decreases saved.len(),
{
    let rest = apply_plan(saved.drop_last(), descs);
    if w < rest.len() {
        lemma_plan_writes_only_known_controls(saved.drop_last(), descs, w);
        let k = choose|k: int|
            0 <= k < saved.drop_last().len() && control_from_str(#[trigger] saved.drop_last()[k].0) == Some(
                rest[w].2,
            ) && find_descriptor(descs, saved.drop_last()[k].0) is Some && saved.drop_last()[k].0 == rest[w].0;
        assert(saved[k] == saved.drop_last()[k]);
    } else {
        let k = saved.len() - 1;
        assert(control_from_str(saved[k].0) == Some(apply_plan(saved, descs)[w].2));
    }
}

/// Writes the plan for `saved` and `descriptors` through the backend: each
/// saved value whose identifier names a control that a descriptor
/// describes is clamped to that descriptor's range and written, even after
/// earlier writes failed. Returns the `(identifier, saved value)` pairs
/// whose write succeeded, in saved order.
pub fn apply_with_descriptors<B: CameraBackend>(
    backend: &mut B,
    device_id: &str,
    saved: &Vec<(String, i32)>,
    descriptors: &Vec<ControlDescriptor>,
) -> (r: Vec<(String, i32)>)
    ensures
        wrote_plan(
            old(backend).write_log(),
            final(backend).write_log(),
            device_id@,
            apply_plan(crate::settings::controls_view(saved@), descriptors@),
        ),
        pairs_view(r@) == applied_pairs(
            apply_plan(crate::settings::controls_view(saved@), descriptors@),
            final(backend).write_log().subrange(old(backend).write_log().len() as int, final(backend).write_log().len() as int),
        ),
{
    let id = DeviceId::new(device_id);
    let ghost sv = controls_view(saved@);
    let ghost log0 = backend.write_log();
    let mut applied: Vec<(String, i32)> = Vec::new();
    let mut i: usize = 0;
    proof {
        assert(log0.subrange(0, log0.len() as int) =~= log0);
        assert(pairs_view(applied@) =~= Seq::<(Seq<char>, i32)>::empty());
    }
    while i < saved.len()
        invariant
            i <= saved@.len(),
            sv == controls_view(saved@),
            id@ == device_id@,
            log0 == old(backend).write_log(),
            wrote_plan(log0, backend.write_log(), device_id@, apply_plan(sv.subrange(0, i as int), descriptors@)),
            pairs_view(applied@) == applied_pairs(
                apply_plan(sv.subrange(0, i as int), descriptors@),
                backend.write_log().subrange(log0.len() as int, backend.write_log().len() as int),
            ),
        decreases saved@.len() - i,
    {
        let ghost plan0 = apply_plan(sv.subrange(0, i as int), descriptors@);
        let ghost before = backend.write_log();
        proof {
            assert(sv.subrange(0, i + 1).drop_last() =~= sv.subrange(0, i as int));
        }
        let key = &saved[i].0;
        let value = saved[i].1;
        match ControlId::from_str_id(key.as_str()) {
            None => {
            },
            Some(control) => {
                match find_descriptor_exec(descriptors, key.as_str()) {
                    None => {
                    },
                    Some(j) => {
                        let clamped = ControlValue::new(value, descriptors[j].min, descriptors[j].max);
                        let res = backend.set_control(&id, &control, clamped);
                        let ghost after = backend.write_log();
                        let ghost plan1 = apply_plan(sv.subrange(0, i + 1), descriptors@);
                        let ghost old_applied = pairs_view(applied@);
                        proof {
                            assert(sv.subrange(0, i + 1).last() == (key@, value));
                            assert(plan1 == plan0.push((key@, value, control, clamped@)));
                            assert(after.subrange(0, log0.len() as int) =~= log0);
                            assert forall|k: int| 0 <= k < plan1.len() implies {
                                let w = #[trigger] after[log0.len() + k];
                                w.0 == device_id@ && w.1 == plan1[k].2 && w.2 == plan1[k].3
                            } by {
                                if k < plan0.len() {
                                    assert(after[log0.len() + k] == before[log0.len() + k]);
                                    assert(plan1[k] == plan0[k]);
                                }
                            }
                            let tail = after.subrange(log0.len() as int, after.len() as int);
                            assert(tail.len() == plan1.len());
                            assert(tail.subrange(0, plan1.len() - 1) =~= before.subrange(log0.len() as int, before.len() as int));
                            assert(tail[plan1.len() - 1] == after.last());
                            assert(after.last().3 == res is Ok);
                        }
                        proof {
                            let tail = after.subrange(log0.len() as int, after.len() as int);
                            assert(plan1.drop_last() =~= plan0);
                            assert(plan1.last() == (key@, value, control, clamped@));
                            assert(applied_pairs(plan0, tail.subrange(0, plan1.len() - 1)) == old_applied);
                        }
                        if res.is_ok() {
                            let k2 = key.clone();
                            applied.push((k2, value));
                            proof {
                                assert(pairs_view(applied@) =~= old_applied.push((key@, value)));
                            }
                        }
                    },
                }
            },
        }
        i += 1;
    }
    proof {
        assert(sv.subrange(0, i as int) =~= sv);
    }
    applied
}

/// Reapplying succeeded through descriptors `ds` that the backend may
/// report: the writes are the plan of the saved entries `saved` (whose map
/// is the device's saved controls) and the result the pairs whose write
/// succeeded.
pub open spec fn applied_through(
    before: Seq<ControlWrite>,
    after: Seq<ControlWrite>,
    r: Seq<(Seq<char>, i32)>,
    dev: Seq<char>,
    saved: Seq<(Seq<char>, i32)>,
    ds: Seq<ControlDescriptor>,
) -> bool {
    &&& wrote_plan(before, after, dev, apply_plan(saved, ds))
    &&& r == applied_pairs(apply_plan(saved, ds), after.subrange(before.len() as int, after.len() as int))
}

/// Backend `b` may report descriptors `ds` for `dev`, `saved` are entries
/// whose map is `saved_map`, and reapplying them through `ds` took `b`'s
/// write log to `after` with result `r`.
pub open spec fn reapplied<B: CameraBackend>(
    b: B,
    saved_map: Map<Seq<char>, i32>,
    after: Seq<ControlWrite>,
    r: Seq<(Seq<char>, i32)>,
    dev: Seq<char>,
    saved: Seq<(Seq<char>, i32)>,
    ds: Vec<ControlDescriptor>,
) -> bool {
    &&& b.controls_answer(dev, Ok(ds))
    &&& controls_map(saved) == saved_map
    &&& applied_through(b.write_log(), after, r, dev, saved, ds@)
}

/// What reapplying the saved settings of `dev` may do, from backend state
/// `before_b` and saved cameras `cameras`: the resulting write log `after`
/// and returned pairs `r`.
pub open spec fn apply_outcome<B: CameraBackend>(
    before_b: B,
    cameras: Map<Seq<char>, crate::settings::CameraView>,
    dev: Seq<char>,
    after: Seq<ControlWrite>,
    r: Seq<(Seq<char>, i32)>,
) -> bool {
    &&& (!cameras.contains_key(dev) ==> r.len() == 0 && after == before_b.write_log())
    &&& (cameras.contains_key(dev) ==> {
        ||| (r.len() == 0 && after == before_b.write_log() && exists|e: CameraError|
            #[trigger] before_b.controls_answer(dev, Err(e)))
        ||| exists|saved: Seq<(Seq<char>, i32)>, ds: Vec<ControlDescriptor>|
            #[trigger] reapplied(before_b, cameras[dev].1, after, r, dev, saved, ds)
    })
}

/// Reapplies the saved settings of a device through the backend: reads the
/// device's descriptors, then writes as `apply_with_descriptors` does. With
/// nothing saved no backend call is made; when the descriptors cannot be
/// read nothing is written. Returns the pairs whose write succeeded.
pub fn apply_saved_settings<B: CameraBackend>(backend: &mut B, store: &SettingsStore, device_id: &str) -> (r: Vec<(String, i32)>)
    ensures
        !store.cameras().contains_key(device_id@) ==> *final(backend) == *old(backend),
        apply_outcome(*old(backend), store.cameras(), device_id@, final(backend).write_log(), pairs_view(r@)),
{
    let saved = match store.get_camera(device_id) {
        Some(s) => s,
        None => {
            return Vec::new();
        },
    };
    let id = DeviceId::new(device_id);
    let res = backend.get_controls(&id);
    match res {
        Err(e) => {
            assert(old(backend).controls_answer(device_id@, Err(e)));
            Vec::new()
        },
        Ok(descriptors) => {
            let ghost mid = backend.write_log();
            let applied = apply_with_descriptors(backend, device_id, &saved.controls, &descriptors);
            assert(old(backend).controls_answer(device_id@, Ok(descriptors)));
            assert(reapplied(
                *old(backend),
                store.cameras()[device_id@].1,
                backend.write_log(),
                pairs_view(applied@),
                device_id@,
                controls_view(saved.controls@),
                descriptors,
            ));
            applied
        },
    }
}

/// The value that writing `value` to control `key` sends, or the message
/// why nothing is written: the first descriptor of `key` must exist and not
/// be read-only; the value is clamped to its range.
pub open spec fn write_check(descs: Seq<ControlDescriptor>, key: Seq<char>, c: ControlId, value: i32) -> Result<i32, Seq<char>> {
    match descriptor_info(descs, key) {
        None => Err(unsupported_message(c)),
        Some(info) => if info.3 {
            Err("Control '"@ + crate::types::control_display_name(c) + "' is read-only"@)
        } else {
            Ok(clamp_opt(value as int, info.0, info.1) as i32)
        },
    }
}

/// Checks a control write against the device's descriptors.
pub fn check_control_write(descriptors: &Vec<ControlDescriptor>, control_id: &str, control: ControlId, value: i32) -> (r: Result<i32, String>)
    ensures
        match r {
            Ok(v) => write_check(descriptors@, control_id@, control, value) == Ok::<i32, Seq<char>>(v),
            Err(m) => write_check(descriptors@, control_id@, control, value) == Err::<i32, Seq<char>>(m@),
        },
{
    let i = match find_descriptor_exec(descriptors, control_id) {
        Some(i) => i,
        None => {
            return Err(quoted_message("Control '", control, "' not supported on this device"));
        },
    };
    if descriptors[i].flags.is_read_only {
        return Err(quoted_message("Control '", control, "' is read-only"));
    }
    Ok(ControlValue::new(value, descriptors[i].min, descriptors[i].max).value())
}

/// The value that resetting control `key` sends, or why nothing is
/// written: the first descriptor of `key` must exist and have a default,
/// which is clamped to its range.
pub open spec fn reset_check(descs: Seq<ControlDescriptor>, key: Seq<char>, c: ControlId) -> Result<(i32, i32), Seq<char>> {
    match descriptor_info(descs, key) {
        None => Err(unsupported_message(c)),
        Some(info) => match info.2 {
            None => Err("No default value for '"@ + crate::types::control_display_name(c) + "'"@),
            Some(d) => Ok((d, clamp_opt(d as int, info.0, info.1) as i32)),
        },
    }
}

/// Checks a reset against the device's descriptors: the default and the
/// value to write.
pub fn check_control_reset(descriptors: &Vec<ControlDescriptor>, control_id: &str, control: ControlId) -> (r: Result<(i32, i32), String>)
    ensures
        match r {
            Ok(p) => reset_check(descriptors@, control_id@, control) == Ok::<(i32, i32), Seq<char>>(p),
            Err(m) => reset_check(descriptors@, control_id@, control) == Err::<(i32, i32), Seq<char>>(m@),
        },
{
    let i = match find_descriptor_exec(descriptors, control_id) {
        Some(i) => i,
        None => {
            return Err(quoted_message("Control '", control, "' not supported on this device"));
        },
    };
    match descriptors[i].default {
        Some(d) => Ok((d, ControlValue::new(d, descriptors[i].min, descriptors[i].max).value())),
        None => Err(quoted_message("No default value for '", control, "'")),
    }
}

/// The outcome of a checked single write given descriptors `ds` that the
/// backend may report: when the check fails, its message and no write;
/// otherwise exactly one write of the checked value, and `Ok` exactly when
/// that write succeeded.
pub open spec fn single_write(
    before: Seq<ControlWrite>,
    after: Seq<ControlWrite>,
    dev: Seq<char>,
    c: ControlId,
    check: Result<i32, Seq<char>>,
    r_ok: bool,
    r_err: Seq<char>,
) -> bool {
    match check {
        Err(m) => !r_ok && r_err == m && after == before,
        Ok(v) => after == before.push((dev, c, v, r_ok)),
    }
}

/// The error text of a result, empty for `Ok`.
pub open spec fn err_text<T>(r: Result<T, String>) -> Seq<char> {
    match r {
        Ok(_) => Seq::empty(),
        Err(e) => e@,
    }
}

/// Writes one control from the user interface: the identifier must name a
/// control that the device describes and that is not read-only; the value
/// is clamped to the descriptor's range and written once. Nothing is
/// written otherwise.
pub fn set_camera_control<B: CameraBackend>(backend: &mut B, device_id: &str, control_id: &str, value: i32) -> (r: Result<(), String>)
    ensures
        control_from_str(control_id@) is None ==> r is Err && r->Err_0@ == unknown_control_message(control_id@)
            && final(backend).write_log() == old(backend).write_log(),
        control_from_str(control_id@) is Some ==> {
            let c = control_from_str(control_id@)->0;
            ||| (r is Err && final(backend).write_log() == old(backend).write_log() && exists|e: CameraError|
                #[trigger] old(backend).controls_answer(device_id@, Err(e)))
            ||| exists|ds: Vec<ControlDescriptor>|
                #[trigger] old(backend).controls_answer(device_id@, Ok(ds)) && single_write(
                    old(backend).write_log(),
                    final(backend).write_log(),
                    device_id@,
                    c,
                    write_check(ds@, control_id@, c, value),
                    r is Ok,
                    err_text(r),
                )
        },
{
    let id = DeviceId::new(device_id);
    let control = parse_control_id(control_id)?;
    let descriptors = match backend.get_controls(&id) {
        Ok(d) => d,
        Err(e) => {
            assert(old(backend).controls_answer(device_id@, Err(e)));
            return Err(e.to_string());
        },
    };
    assert(old(backend).controls_answer(device_id@, Ok(descriptors)));
    let v = match check_control_write(&descriptors, control_id, control, value) {
        Ok(v) => v,
        Err(m) => {
            let out: Result<(), String> = Err(m);
            assert(single_write(old(backend).write_log(), backend.write_log(), device_id@, control,
                write_check(descriptors@, control_id@, control, value), out is Ok, err_text(out)));
            return out;
        },
    };
    let clamped = ControlValue::new(v, None, None);
    let res = backend.set_control(&id, &control, clamped);
    let out: Result<(), String> = match res {
        Ok(()) => Ok(()),
        Err(e) => Err(e.to_string()),
    };
    assert(single_write(old(backend).write_log(), backend.write_log(), device_id@, control,
        write_check(descriptors@, control_id@, control, value), out is Ok, err_text(out)));
    out
}

/// Resets one control to its default from the user interface and returns
/// the default; the control must be described and have a default, which is
/// clamped to its range and written once.
pub fn reset_camera_control<B: CameraBackend>(backend: &mut B, device_id: &str, control_id: &str) -> (r: Result<i32, String>)
    ensures
        control_from_str(control_id@) is None ==> r is Err && r->Err_0@ == unknown_control_message(control_id@)
            && final(backend).write_log() == old(backend).write_log(),
        control_from_str(control_id@) is Some ==> {
            let c = control_from_str(control_id@)->0;
            ||| (r is Err && final(backend).write_log() == old(backend).write_log() && exists|e: CameraError|
                #[trigger] old(backend).controls_answer(device_id@, Err(e)))
            ||| exists|ds: Vec<ControlDescriptor>|
                #[trigger] old(backend).controls_answer(device_id@, Ok(ds)) && single_write(
                    old(backend).write_log(),
                    final(backend).write_log(),
                    device_id@,
                    c,
                    match reset_check(ds@, control_id@, c) {
                        Ok(p) => Ok(p.1),
                        Err(m) => Err(m),
                    },
                    r is Ok,
                    err_text(r),
                ) && (r is Ok ==> reset_check(ds@, control_id@, c) is Ok && r->Ok_0 == reset_check(ds@, control_id@, c)->Ok_0.0)
        },
{
    let id = DeviceId::new(device_id);
    let control = parse_control_id(control_id)?;
    let descriptors = match backend.get_controls(&id) {
        Ok(d) => d,
        Err(e) => {
            assert(old(backend).controls_answer(device_id@, Err(e)));
            return Err(e.to_string());
        },
    };
    assert(old(backend).controls_answer(device_id@, Ok(descriptors)));
    let (default_val, v) = match check_control_reset(&descriptors, control_id, control) {
        Ok(p) => p,
        Err(m) => {
            let out: Result<i32, String> = Err(m);
            assert(single_write(old(backend).write_log(), backend.write_log(), device_id@, control,
                match reset_check(descriptors@, control_id@, control) { Ok(p) => Ok(p.1), Err(m) => Err(m) },
                out is Ok, err_text(out)));
            return out;
        },
    };
    let clamped = ControlValue::new(v, None, None);
    let res = backend.set_control(&id, &control, clamped);
    let out: Result<i32, String> = match res {
        Ok(()) => Ok(default_val),
        Err(e) => Err(e.to_string()),
    };
    assert(single_write(old(backend).write_log(), backend.write_log(), device_id@, control,
        match reset_check(descriptors@, control_id@, control) { Ok(p) => Ok(p.1), Err(m) => Err(m) },
        out is Ok, err_text(out)));
    out
}

/// One reset: descriptor identifier, default, control, value to write.
pub type ResetItem = (Seq<char>, i32, ControlId, i32);

/// The resets of a device's descriptors: each one that has a default and a
/// known identifier, in descriptor order, with the default clamped to its
/// range.
pub open spec fn reset_plan(descs: Seq<ControlDescriptor>) -> Seq<ResetItem>
    decreases descs.len(),
{
    if descs.len() == 0 {
        Seq::empty()
    } else {
        let rest = reset_plan(descs.drop_last());
        let d = descs.last();
        match (d.default, control_from_str(d.id@)) {
            (Some(v), Some(c)) => rest.push((d.id@, v, c, clamp_opt(v as int, d.min, d.max) as i32)),
            _ => rest,
        }
    }
}

/// The writes of the resets, all successful.
pub open spec fn reset_writes(dev: Seq<char>, plan: Seq<ResetItem>) -> Seq<ControlWrite> {
    Seq::new(plan.len(), |i: int| (dev, plan[i].2, plan[i].3, true))
}

/// The `(identifier, default)` of each reset.
pub open spec fn reset_pairs(plan: Seq<ResetItem>) -> Seq<(Seq<char>, i32)> {
    Seq::new(plan.len(), |i: int| (plan[i].0, plan[i].1))
}

/// Sets every control in `descriptors` that has a default back to it
/// (clamped to its range), in order, stopping at the first failed write.
/// On success returns the `(identifier, default)` of each.
pub fn reset_with_descriptors<B: CameraBackend>(backend: &mut B, device_id: &str, descriptors: &Vec<ControlDescriptor>) -> (r: Result<Vec<(String, i32)>, String>)
    ensures
        r is Ok ==> final(backend).write_log() == old(backend).write_log() + reset_writes(device_id@, reset_plan(descriptors@))
            && pairs_view(r->Ok_0@) == reset_pairs(reset_plan(descriptors@)),
{
    let id = DeviceId::new(device_id);
    let ghost log0 = backend.write_log();
    let mut reset_values: Vec<(String, i32)> = Vec::new();
    let mut i: usize = 0;
    proof {
        assert(reset_writes(device_id@, reset_plan(descriptors@.subrange(0, 0))) =~= Seq::<ControlWrite>::empty());
        assert(log0 + Seq::<ControlWrite>::empty() =~= log0);
        assert(pairs_view(reset_values@) =~= Seq::<(Seq<char>, i32)>::empty());
    }
    while i < descriptors.len()
        invariant
            i <= descriptors@.len(),
            id@ == device_id@,
            log0 == old(backend).write_log(),
            backend.write_log() == log0 + reset_writes(device_id@, reset_plan(descriptors@.subrange(0, i as int))),
            pairs_view(reset_values@) == reset_pairs(reset_plan(descriptors@.subrange(0, i as int))),
        decreases descriptors@.len() - i,
    {
        let ghost p0 = reset_plan(descriptors@.subrange(0, i as int));
        proof {
            assert(descriptors@.subrange(0, i + 1).drop_last() =~= descriptors@.subrange(0, i as int));
        }
        let desc = &descriptors[i];
        if let Some(default_val) = desc.default {
            if let Some(control) = ControlId::from_str_id(desc.id.as_str()) {
                let clamped = ControlValue::new(default_val, desc.min, desc.max);
                match backend.set_control(&id, &control, clamped) {
                    Ok(()) => {
                        let key = desc.id.clone();
                        let ghost old_vals = pairs_view(reset_values@);
                        reset_values.push((key, default_val));
                        proof {
                            let p1 = reset_plan(descriptors@.subrange(0, i + 1));
                            assert(descriptors@.subrange(0, i + 1).last() == *desc);
                            assert(p1 == p0.push((desc.id@, default_val, control, clamped@)));
                            assert(pairs_view(reset_values@) =~= old_vals.push((desc.id@, default_val)));
                            assert(reset_writes(device_id@, p1) =~= reset_writes(device_id@, p0).push(
                                (device_id@, control, clamped@, true),
                            ));
                            assert(backend.write_log() =~= log0 + reset_writes(device_id@, p1));
                            assert(pairs_view(reset_values@) =~= reset_pairs(p1));
                        }
                    },
                    Err(e) => {
                        return Err(e.to_string());
                    },
                }
            }
        }
        i += 1;
    }
    proof {
        assert(descriptors@.subrange(0, i as int) =~= descriptors@);
    }
    Ok(reset_values)
}

/// Sets every control of a device that has a default back to it (clamped to
/// its range) and forgets the device's saved settings. Fails with the
/// backend's message when the controls cannot be read or a write fails;
/// the saved settings are then kept.
pub fn reset_to_defaults<B: CameraBackend>(backend: &mut B, store: &mut SettingsStore, device_id: &str) -> (r: Result<Vec<(String, i32)>, String>)
    ensures
        r is Ok ==> final(store).cameras() == old(store).cameras().remove(device_id@),
        r is Err ==> final(store).cameras() == old(store).cameras(),
        !old(backend).owns(device_id@) ==> r is Err,
        r is Ok ==> exists|ds: Vec<ControlDescriptor>|
            #[trigger] old(backend).controls_answer(device_id@, Ok(ds)) && final(backend).write_log()
                == old(backend).write_log() + reset_writes(device_id@, reset_plan(ds@)) && pairs_view(r->Ok_0@)
                == reset_pairs(reset_plan(ds@)),
{
    let id = DeviceId::new(device_id);
    let descriptors = match backend.get_controls(&id) {
        Ok(d) => d,
        Err(e) => {
            return Err(e.to_string());
        },
    };
    assert(old(backend).controls_answer(device_id@, Ok(descriptors)));
    let ghost mid = backend.write_log();
    let out = reset_with_descriptors(backend, device_id, &descriptors)?;
    store.remove_camera(device_id);
    let res: Result<Vec<(String, i32)>, String> = Ok(out);
    res
}

} // verus!
