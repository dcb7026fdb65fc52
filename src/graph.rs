//! The decisions taken while building a capture graph: which source filter
//! to use, which capability to request, and which pixel format arrived.

use vstd::prelude::*;
use crate::convert::{is_obs_virtual, is_obs_virtual_camera};
use crate::directshow::RawDeviceInfo;
use crate::frames::PixelSubtype;
use crate::text::{push_str, str_eq};
use crate::types::{pixel_count, CameraDevice};

verus! {

/// Distance between a capability's pixel count and the requested one.
pub open spec fn pixel_distance(cap: (u32, u32), width: u32, height: u32) -> int {
    let c = cap.0 as int * cap.1 as int;
    let t = width as int * height as int;
    if c >= t {
        c - t
    } else {
        t - c
    }
}

/// A capability with a usable size.
pub open spec fn usable_cap(cap: (u32, u32)) -> bool {
    cap.0 != 0 && cap.1 != 0
}

/// The resolution is negotiated only for an explicit, non-zero request, and
/// never for the OBS virtual camera.
pub fn should_negotiate_resolution(width: u32, height: u32, friendly_name: &str) -> (r: bool)
    ensures
        r == (width != 0 && height != 0 && !is_obs_virtual(friendly_name@)),
{
    width != 0 && height != 0 && !is_obs_virtual_camera(friendly_name)
}

/// The usable capability whose pixel count is closest to the request; the
/// first of equally close ones. `None` when no capability is usable.
pub fn closest_capability(caps: &Vec<(u32, u32)>, width: u32, height: u32) -> (r: Option<usize>)
    ensures
        match r {
            Some(i) => {
                &&& i < caps@.len()
                &&& usable_cap(caps@[i as int])
                &&& forall|j: int|
                    0 <= j < caps@.len() && usable_cap(caps@[j]) ==> pixel_distance(caps@[i as int], width, height)
                        <= pixel_distance(#[trigger] caps@[j], width, height)
                &&& forall|j: int|
                    0 <= j < i && usable_cap(caps@[j]) ==> pixel_distance(caps@[i as int], width, height)
                        < pixel_distance(#[trigger] caps@[j], width, height)
            },
            None => forall|j: int| 0 <= j < caps@.len() ==> !usable_cap(#[trigger] caps@[j]),
        },
{
    let target = pixel_count(width, height);
    let mut best: Option<usize> = None;
    let mut best_diff: u64 = 0;
    let mut i: usize = 0;
    while i < caps.len()
        invariant
            i <= caps@.len(),
            target == width as int * height as int,
            match best {
                Some(b) => {
                    &&& b < i
                    &&& usable_cap(caps@[b as int])
                    &&& best_diff == pixel_distance(caps@[b as int], width, height)
                    &&& forall|j: int|
                        0 <= j < i && usable_cap(caps@[j]) ==> best_diff <= pixel_distance(#[trigger] caps@[j], width, height)
                    &&& forall|j: int|
                        0 <= j < b && usable_cap(caps@[j]) ==> best_diff < pixel_distance(#[trigger] caps@[j], width, height)
                },
                None => forall|j: int| 0 <= j < i ==> !usable_cap(#[trigger] caps@[j]),
            },
        decreases caps@.len() - i,
    {
        let (cw, ch) = caps[i];
        if cw != 0 && ch != 0 {
            let p = pixel_count(cw, ch);
            let diff = if p >= target {
                p - target
            } else {
                target - p
            };
            let better = match best {
                None => true,
                Some(_) => diff < best_diff,
            };
            if better {
                best = Some(i);
                best_diff = diff;
            }
        }
        i += 1;
    }
    best
}

/// A filter matches by transport path, or, when it has no path, by
/// friendly name (virtual cameras).
pub open spec fn source_matches(device_path: Seq<char>, friendly_name: Seq<char>, path: Seq<char>, name: Seq<char>) -> bool {
    (device_path.len() > 0 && path == device_path) || (friendly_name.len() > 0 && path.len() == 0 && name
        == friendly_name)
}

/// The first enumerated filter that matches the requested device.
pub fn find_source_filter(filters: &Vec<RawDeviceInfo>, device_path: &str, friendly_name: &str) -> (r: Option<usize>)
    ensures
        match r {
            Some(i) => i < filters@.len() && source_matches(
                device_path@,
                friendly_name@,
                filters@[i as int].device_path@,
                filters@[i as int].friendly_name@,
            ) && forall|j: int|
                0 <= j < i ==> !source_matches(
                    device_path@,
                    friendly_name@,
                    #[trigger] filters@[j].device_path@,
                    filters@[j].friendly_name@,
                ),
            None => forall|j: int|
                0 <= j < filters@.len() ==> !source_matches(
                    device_path@,
                    friendly_name@,
                    #[trigger] filters@[j].device_path@,
                    filters@[j].friendly_name@,
                ),
        },
{
    let want_path = device_path.unicode_len() > 0;
    let want_name = friendly_name.unicode_len() > 0;
    let mut i: usize = 0;
    while i < filters.len()
        invariant
            i <= filters@.len(),
            want_path == (device_path@.len() > 0),
            want_name == (friendly_name@.len() > 0),
            forall|j: int|
                0 <= j < i ==> !source_matches(
                    device_path@,
                    friendly_name@,
                    #[trigger] filters@[j].device_path@,
                    filters@[j].friendly_name@,
                ),
        decreases filters@.len() - i,
    {
        let f = &filters[i];
        let by_path = want_path && str_eq(f.device_path.as_str(), device_path);
        let by_name = want_name && f.device_path.as_str().unicode_len() == 0 && str_eq(
            f.friendly_name.as_str(),
            friendly_name,
        );
        if by_path || by_name {
            return Some(i);
        }
        i += 1;
    }
    None
}

/// The first capability that offers NV12 with a standard video-info block.
pub fn first_nv12_capability(caps: &Vec<(PixelSubtype, bool)>) -> (r: Option<usize>)
    ensures
        match r {
            Some(i) => i < caps@.len() && caps@[i as int] == (PixelSubtype::Nv12, true) && forall|j: int|
                0 <= j < i ==> #[trigger] caps@[j] != (PixelSubtype::Nv12, true),
            None => forall|j: int| 0 <= j < caps@.len() ==> #[trigger] caps@[j] != (PixelSubtype::Nv12, true),
        },
{
    let mut i: usize = 0;
    while i < caps.len()
        invariant
            i <= caps@.len(),
            forall|j: int| 0 <= j < i ==> #[trigger] caps@[j] != (PixelSubtype::Nv12, true),
        decreases caps@.len() - i,
    {
        let (subtype, video_info) = caps[i];
        if subtype == PixelSubtype::Nv12 && video_info {
            return Some(i);
        }
        i += 1;
    }
    None
}

/// The geometry and format that frames will have: what the connected media
/// type reports, or the request in RGB24 when it cannot be queried.
pub fn negotiated_format(queried: Option<(u32, u32, PixelSubtype)>, requested_width: u32, requested_height: u32) -> (r: (u32, u32, PixelSubtype))
    ensures
        match queried {
            Some(q) => r == q,
            None => r == (requested_width, requested_height, PixelSubtype::Rgb24),
        },
{
    match queried {
        Some(q) => q,
        None => (requested_width, requested_height, PixelSubtype::Rgb24),
    }
}

/// Message for a device that is not among the enumerated ones.
pub open spec fn device_not_found_message(id: Seq<char>) -> Seq<char> {
    "device not found: "@ + id
}

/// The transport path and friendly name of the enumerated device `device_id`.
pub fn resolve_device_info(devices: &Vec<CameraDevice>, device_id: &str) -> (r: Result<(String, String), String>)
    ensures
        match r {
            Ok(info) => exists|i: int|
                0 <= i < devices@.len() && #[trigger] devices@[i].id@ == device_id@ && info.0@ == devices@[i].device_path@
                    && info.1@ == devices@[i].name@,
            Err(e) => e@ == device_not_found_message(device_id@) && forall|i: int|
                0 <= i < devices@.len() ==> #[trigger] devices@[i].id@ != device_id@,
        },
{
    let mut i: usize = 0;
    while i < devices.len()
        invariant
            i <= devices@.len(),
            forall|j: int| 0 <= j < i ==> #[trigger] devices@[j].id@ != device_id@,
        decreases devices@.len() - i,
    {
        if str_eq(devices[i].id.as_str(), device_id) {
            return Ok((devices[i].device_path.clone(), devices[i].name.clone()));
        }
        i += 1;
    }
    let mut m = String::new();
    push_str(&mut m, "device not found: ");
    push_str(&mut m, device_id);
    Err(m)
}

} // verus!
