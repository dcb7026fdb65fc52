//! The work of one cycle of the vendor-SDK pollers: hot-plug detection by
//! re-enumeration, and live-view frame download.

use vstd::prelude::*;
use crate::canon_discovery::discover_cameras;
use crate::eds::{CameraHandle, EdsSdkApi};
use crate::error::CameraError;
use crate::frames::{Frame, FrameBuffer};
use crate::text::str_eq;
use crate::types::{events_view, tagged_missing, CameraDevice, DeviceId, HotplugEvent};

verus! {

fn contains_id(ids: &Vec<DeviceId>, id: &DeviceId) -> (r: bool)
    ensures
        r == exists|j: int| 0 <= j < ids@.len() && #[trigger] ids@[j]@ == id@,
{
    let mut i: usize = 0;
    while i < ids.len()
        invariant
            i <= ids@.len(),
            forall|j: int| 0 <= j < i ==> #[trigger] ids@[j]@ != id@,
        decreases ids@.len() - i,
    {
        if str_eq(ids[i].as_str(), id.as_str()) {
            return true;
        }
        i += 1;
    }
    false
}

/// Identifiers of the vendor cameras currently listed; empty when the list
/// cannot be read.
pub fn initial_ids<S: EdsSdkApi>(sdk: &mut S) -> (r: Vec<DeviceId>) {
    let mut ids: Vec<DeviceId> = Vec::new();
    if let Ok(cameras) = discover_cameras(sdk) {
        let mut i: usize = 0;
        while i < cameras.len()
            invariant
                i <= cameras@.len(),
            decreases cameras@.len() - i,
        {
            ids.push(cameras[i].1.id.clone());
            i += 1;
        }
    }
    ids
}

/// The identifiers of a list of device identifiers.
pub open spec fn id_views(ids: Seq<DeviceId>) -> Seq<Seq<char>> {
    Seq::new(ids.len(), |i: int| ids[i]@)
}

/// Identifiers keyed by themselves.
pub open spec fn self_keyed(ids: Seq<Seq<char>>) -> Seq<(Seq<char>, Seq<char>)> {
    Seq::new(ids.len(), |i: int| (ids[i], ids[i]))
}

/// The events between the known identifiers and the current ones: a
/// `Connected` for each current identifier not known, in current order,
/// then a `Disconnected` for each known identifier no longer current, in
/// known order.
pub open spec fn id_diff(known: Seq<Seq<char>>, current: Seq<Seq<char>>) -> Seq<(bool, Seq<char>)> {
    tagged_missing(self_keyed(current), known, true) + tagged_missing(self_keyed(known), current, false)
}

/// The hot-plug events between the known identifiers and the cameras just
/// discovered.
pub fn hotplug_diff(known: &Vec<DeviceId>, current: &Vec<(CameraHandle, CameraDevice)>) -> (events: Vec<HotplugEvent>)
    ensures
        events_view(events@) == id_diff(
            id_views(known@),
            Seq::new(current@.len(), |i: int| current@[i].1.id@),
        ),
{
    let ghost cur = Seq::new(current@.len(), |i: int| current@[i].1.id@);
    let ghost kn = id_views(known@);
    let mut current_ids: Vec<DeviceId> = Vec::new();
    let mut i: usize = 0;
    while i < current.len()
        invariant
            i <= current@.len(),
            current_ids@.len() == i,
            forall|j: int| 0 <= j < i ==> #[trigger] current_ids@[j]@ == current@[j].1.id@,
        decreases current@.len() - i,
    {
        current_ids.push(current[i].1.id.clone());
        i += 1;
    }
    assert(id_views(current_ids@) =~= cur);
    let mut events: Vec<HotplugEvent> = Vec::new();
    let mut k: usize = 0;
    while k < current.len()
        invariant
            k <= current@.len(),
            cur == Seq::new(current@.len(), |i: int| current@[i].1.id@),
            kn == id_views(known@),
            events_view(events@) == tagged_missing(self_keyed(cur).subrange(0, k as int), kn, true),
        decreases current@.len() - k,
    {
        let ghost ev0 = events@;
        proof {
            assert(self_keyed(cur).subrange(0, k + 1).drop_last() =~= self_keyed(cur).subrange(0, k as int));
        }
        if !contains_id(known, &current[k].1.id) {
            events.push(HotplugEvent::Connected(current[k].1.clone()));
            proof {
                assert(!kn.contains(cur[k as int])) by {
                    if kn.contains(cur[k as int]) {
                        let j = choose|j: int| 0 <= j < kn.len() && kn[j] == cur[k as int];
                        assert(known@[j]@ == current@[k as int].1.id@);
                    }
                }
                assert(events_view(events@) =~= events_view(ev0).push((true, cur[k as int])));
            }
        } else {
            proof {
                let j = choose|j: int| 0 <= j < known@.len() && #[trigger] known@[j]@ == current@[k as int].1.id@;
                assert(kn[j] == cur[k as int]);
            }
        }
        k += 1;
    }
    assert(self_keyed(cur).subrange(0, k as int) =~= self_keyed(cur));
    let ghost first = events_view(events@);
    let mut m: usize = 0;
    while m < known.len()
        invariant
            m <= known@.len(),
            cur == id_views(current_ids@),
            kn == id_views(known@),
            first == tagged_missing(self_keyed(cur), kn, true),
            events_view(events@) == first + tagged_missing(self_keyed(kn).subrange(0, m as int), cur, false),
        decreases known@.len() - m,
    {
        let ghost ev0 = events@;
        proof {
            assert(self_keyed(kn).subrange(0, m + 1).drop_last() =~= self_keyed(kn).subrange(0, m as int));
        }
        if !contains_id(&current_ids, &known[m]) {
            let id = known[m].clone();
            events.push(HotplugEvent::Disconnected { id });
            proof {
                assert(!cur.contains(kn[m as int])) by {
                    if cur.contains(kn[m as int]) {
                        let j = choose|j: int| 0 <= j < cur.len() && cur[j] == kn[m as int];
                        assert(current_ids@[j]@ == known@[m as int]@);
                    }
                }
                assert(events_view(events@) =~= events_view(ev0).push((false, kn[m as int])));
            }
        } else {
            proof {
                let j = choose|j: int| 0 <= j < current_ids@.len() && #[trigger] current_ids@[j]@ == known@[m as int]@;
                assert(cur[j] == kn[m as int]);
            }
        }
        m += 1;
    }
    assert(self_keyed(kn).subrange(0, m as int) =~= self_keyed(kn));
    events
}

/// Applies one enumeration result to the known identifiers: a failed
/// enumeration reports nothing and keeps them; a successful one reports
/// `hotplug_diff` of the known identifiers and the discovered cameras, whose
/// identifiers become the known ones.
pub fn apply_discovery(
    known: &mut Vec<DeviceId>,
    discovered: Result<Vec<(CameraHandle, CameraDevice)>, CameraError>,
) -> (events: Vec<HotplugEvent>)
    ensures
        match discovered {
            Err(_) => events@.len() == 0 && final(known)@ == old(known)@,
            Ok(c) => {
                let cur = Seq::new(c@.len(), |i: int| c@[i].1.id@);
                &&& id_views(final(known)@) == cur
                &&& events_view(events@) == id_diff(id_views(old(known)@), cur)
            },
        },
{
    let current = match discovered {
        Ok(c) => c,
        Err(_) => {
            return Vec::new();
        },
    };
    let events = hotplug_diff(known, &current);
    let mut ids: Vec<DeviceId> = Vec::new();
    let mut i: usize = 0;
    while i < current.len()
        invariant
            i <= current@.len(),
            ids@.len() == i,
            forall|j: int| 0 <= j < i ==> #[trigger] ids@[j]@ == current@[j].1.id@,
        decreases current@.len() - i,
    {
        ids.push(current[i].1.id.clone());
        i += 1;
    }
    assert(id_views(ids@) =~= Seq::new(current@.len(), |i: int| current@[i].1.id@));
    *known = ids;
    events
}

/// One hot-plug poll: pumps the SDK's events, re-enumerates, and applies
/// the result with `apply_discovery`.
pub fn poll_hotplug<S: EdsSdkApi>(sdk: &mut S, known: &mut Vec<DeviceId>) -> (events: Vec<HotplugEvent>)
    ensures
        (events@.len() == 0 && final(known)@ == old(known)@) || events_view(events@) == id_diff(
            id_views(old(known)@),
            id_views(final(known)@),
        ),
{
    let _ = sdk.get_event();
    let discovered = discover_cameras(sdk);
    apply_discovery(known, discovered)
}

/// One live-view poll: downloads the camera's JPEG and, when there is one,
/// pushes it unchanged as the next frame, stamped with its ordinal times the
/// poll interval. Returns whether a frame was pushed.
pub fn poll_live_view<S: EdsSdkApi>(
    sdk: &mut S,
    camera: CameraHandle,
    buffer: &mut FrameBuffer,
    delivered: &mut u64,
    interval_us: u64,
) -> (r: bool)
    requires
        old(buffer).well_formed(),
        old(buffer).capacity_spec() > 0,
    ensures
        final(buffer).well_formed(),
        final(buffer).capacity_spec() == old(buffer).capacity_spec(),
        r ==> final(buffer).pushed().len() == old(buffer).pushed().len() + 1 && *final(delivered)
            == if *old(delivered) == u64::MAX {
            u64::MAX
        } else {
            (*old(delivered) + 1) as u64
        } && final(buffer).pushed().last().3 == if *final(delivered) as int * interval_us as int > u64::MAX {
            u64::MAX
        } else {
            (*final(delivered) as int * interval_us as int) as u64
        } && final(buffer).pushed().last().1 == 0 && final(buffer).pushed().last().2 == 0,
        !r ==> final(buffer).pushed() == old(buffer).pushed() && *final(delivered) == *old(delivered),
{
    match sdk.download_evf_image(camera) {
        Ok(jpeg) => {
            *delivered = delivered.saturating_add(1);
            let d = *delivered;
            let ts = if interval_us != 0 && d > u64::MAX / interval_us {
                proof {
                    assert(d as int * interval_us as int > u64::MAX) by (nonlinear_arith)
                        requires
                            interval_us > 0,
                            d > u64::MAX / interval_us,
                    ;
                }
                u64::MAX
            } else {
                proof {
                    assert(d as int * interval_us as int <= u64::MAX) by (nonlinear_arith)
                        requires
                            interval_us == 0 || d <= u64::MAX / interval_us,
                    ;
                }
                d * interval_us
            };
            buffer.push(Frame { data: jpeg, width: 0, height: 0, timestamp_us: ts });
            true
        },
        Err(_) => false,
    }
}

} // verus!
