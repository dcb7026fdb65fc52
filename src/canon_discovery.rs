//! Enumeration of vendor-SDK cameras as devices with `canon:` identifiers.

use vstd::prelude::*;
use vstd::utf8::encode_utf8;
use crate::eds::{until_nul, utf8_lossy_of, CameraHandle, EdsDeviceInfo, EdsSdkApi};
use crate::error::CameraError;
use crate::text::{hex_fixed, push_hex_fixed, push_str};
use crate::types::{fnv1a, simple_hash, CameraDevice, DeviceId};

verus! {

/// The identifier of a vendor camera: `canon:<serial>` when a non-empty
/// serial is known, else `canon:` and the 16-digit FNV-1a hash of the model.
pub open spec fn canon_device_id(model: Seq<char>, serial: Option<Seq<char>>) -> Seq<char> {
    match serial {
        Some(s) => if s.len() > 0 {
            "canon:"@ + s
        } else {
            "canon:"@ + hex_fixed(fnv1a(encode_utf8(model)) as nat, 16, false)
        },
        None => "canon:"@ + hex_fixed(fnv1a(encode_utf8(model)) as nat, 16, false),
    }
}

/// A stable identifier for a vendor camera.
pub fn make_device_id(model: &str, serial: Option<&str>) -> (r: DeviceId)
    ensures
        r@ == canon_device_id(model@, match serial {
            Some(s) => Some(s@),
            None => None,
        }),
{
    let mut out = String::new();
    push_str(&mut out, "canon:");
    match serial {
        Some(s) => {
            if s.unicode_len() > 0 {
                push_str(&mut out, s);
            } else {
                push_hex_fixed(&mut out, simple_hash(model), 16, false);
            }
        },
        None => {
            push_hex_fixed(&mut out, simple_hash(model), 16, false);
        },
    }
    DeviceId::from_string(out)
}

/// The device that the SDK's information describes.
pub open spec fn device_of_info(d: CameraDevice, info: EdsDeviceInfo) -> bool {
    let model = utf8_lossy_of(until_nul(info.device_description@));
    let serial = until_nul(info.body_id_ex@);
    &&& d.id@ == canon_device_id(model, if serial.len() > 0 { Some(utf8_lossy_of(serial)) } else { None })
    &&& d.name@ == model
    &&& d.device_path@ == "edsdk://"@ + model
    &&& d.is_connected
}

/// The device is what some SDK device information describes.
pub open spec fn described_by_sdk(d: CameraDevice) -> bool {
    exists|info: EdsDeviceInfo| #[trigger] device_of_info(d, info)
}

/// Builds the device record of a camera from its SDK information.
pub fn device_from_info(info: &EdsDeviceInfo) -> (d: CameraDevice)
    ensures
        device_of_info(d, *info),
{
    let model = info.model_name();
    let serial = info.serial_number();
    let id = match &serial {
        Some(s) => make_device_id(model.as_str(), Some(s.as_str())),
        None => make_device_id(model.as_str(), None),
    };
    let mut path = String::new();
    push_str(&mut path, "edsdk://");
    push_str(&mut path, model.as_str());
    CameraDevice { id, name: model, device_path: path, is_connected: true }
}

/// The `(handle, information)` of each listed camera whose information
/// was read, in list order.
pub open spec fn readable_cameras(
    handles: Seq<CameraHandle>,
    infos: Seq<Result<EdsDeviceInfo, CameraError>>,
) -> Seq<(CameraHandle, EdsDeviceInfo)>
    decreases infos.len(),
{
    if infos.len() == 0 || handles.len() < infos.len() {
        Seq::empty()
    } else {
        let rest = readable_cameras(handles.subrange(0, infos.len() - 1), infos.drop_last());
        match infos.last() {
            Ok(info) => rest.push((handles[infos.len() - 1], info)),
            Err(_) => rest,
        }
    }
}

/// `r` holds, in order, the handle and device record of each camera whose
/// information was read.
pub open spec fn discovered_from(
    handles: Seq<CameraHandle>,
    infos: Seq<Result<EdsDeviceInfo, CameraError>>,
    r: Seq<(CameraHandle, CameraDevice)>,
) -> bool {
    let cams = readable_cameras(handles, infos);
    &&& r.len() == cams.len()
    &&& forall|k: int| #![trigger r[k]] 0 <= k < r.len() ==> r[k].0 == cams[k].0 && device_of_info(r[k].1, cams[k].1)
}

/// The cameras of a listing: for each handle whose information (at the same
/// position in `infos`) was read, the handle and its device record, in
/// order; the others are skipped.
pub fn collect_discovered(
    handles: &Vec<CameraHandle>,
    infos: Vec<Result<EdsDeviceInfo, CameraError>>,
) -> (r: Vec<(CameraHandle, CameraDevice)>)
    requires
        handles@.len() == infos@.len(),
    ensures
        discovered_from(handles@, infos@, r@),
{
    let mut devices: Vec<(CameraHandle, CameraDevice)> = Vec::new();
    let mut i: usize = 0;
    while i < infos.len()
        invariant
            i <= infos@.len(),
            handles@.len() == infos@.len(),
            discovered_from(handles@.subrange(0, i as int), infos@.subrange(0, i as int), devices@),
        decreases infos@.len() - i,
    {
        let ghost cams0 = readable_cameras(handles@.subrange(0, i as int), infos@.subrange(0, i as int));
        let ghost dev0 = devices@;
        proof {
            assert(handles@.subrange(0, i + 1).subrange(0, i as int) =~= handles@.subrange(0, i as int));
            assert(infos@.subrange(0, i + 1).drop_last() =~= infos@.subrange(0, i as int));
            assert(infos@.subrange(0, i + 1).last() == infos@[i as int]);
            assert(handles@.subrange(0, i + 1)[i as int] == handles@[i as int]);
        }
        match &infos[i] {
            Ok(info) => {
                let d = device_from_info(info);
                devices.push((handles[i], d));
                proof {
                    let cams1 = readable_cameras(handles@.subrange(0, i + 1), infos@.subrange(0, i + 1));
                    assert(infos@[i as int] == Ok::<EdsDeviceInfo, CameraError>(*info));
                    assert(cams1 == cams0.push((handles@[i as int], *info)));
                    assert forall|k: int| 0 <= k < devices@.len() implies devices@[k].0 == cams1[k].0
                        && device_of_info(#[trigger] devices@[k].1, cams1[k].1) by {
                        if k < dev0.len() {
                            assert(devices@[k] == dev0[k]);
                            assert(cams1[k] == cams0[k]);
                        }
                    }
                    assert(devices@.len() == cams1.len());
                    assert(discovered_from(handles@.subrange(0, i + 1), infos@.subrange(0, i + 1), devices@));
                }
            },
            Err(_) => {
                proof {
                    let cams1 = readable_cameras(handles@.subrange(0, i + 1), infos@.subrange(0, i + 1));
                    assert(cams1 == cams0);
                    assert(devices@ == dev0);
                    assert(discovered_from(handles@.subrange(0, i as int), infos@.subrange(0, i as int), dev0));
                    assert forall|k: int| 0 <= k < devices@.len() implies devices@[k].0 == cams1[k].0
                        && device_of_info(#[trigger] devices@[k].1, cams1[k].1) by {
                        assert(dev0[k].0 == cams0[k].0 && device_of_info(dev0[k].1, cams0[k].1));
                    }
                    assert(discovered_from(handles@.subrange(0, i + 1), infos@.subrange(0, i + 1), devices@));
                }
            },
        }
        i += 1;
    }
    proof {
        assert(handles@.subrange(0, i as int) =~= handles@);
        assert(infos@.subrange(0, i as int) =~= infos@);
    }
    devices
}

/// The cameras that the SDK lists, each with its handle; a camera whose
/// information cannot be read is skipped. Fails only when the list itself
/// cannot be read.
pub fn discover_cameras<S: EdsSdkApi>(sdk: &mut S) -> (r: Result<Vec<(CameraHandle, CameraDevice)>, CameraError>)
    ensures
        r is Ok ==> exists|handles: Seq<CameraHandle>, infos: Seq<Result<EdsDeviceInfo, CameraError>>|
            #[trigger] discovered_from(handles, infos, r->Ok_0@),
{
    let handles = sdk.camera_list()?;
    let mut infos: Vec<Result<EdsDeviceInfo, CameraError>> = Vec::new();
    let mut i: usize = 0;
    while i < handles.len()
        invariant
            i <= handles@.len(),
            infos@.len() == i,
        decreases handles@.len() - i,
    {
        infos.push(sdk.get_device_info(handles[i]));
        i += 1;
    }
    let ghost iv = infos@;
    let devices = collect_discovered(&handles, infos);
    let out: Result<Vec<(CameraHandle, CameraDevice)>, CameraError> = Ok(devices);
    assert(discovered_from(handles@, iv, out->Ok_0@));
    out
}

} // verus!
