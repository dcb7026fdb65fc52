//! The camera backend interface and the merge and routing rules of the
//! composite backend.

use vstd::prelude::*;
use crate::error::CameraError;
use crate::types::{
    CameraDevice, ControlDescriptor, ControlId, ControlValue, DeviceId, FormatDescriptor, HotplugEvent,
};

verus! {

/// `r` is the `DeviceNotFound` error.
pub open spec fn not_found<T>(r: &Result<T, CameraError>) -> bool {
    match r {
        Err(CameraError::DeviceNotFound(_)) => true,
        _ => false,
    }
}

/// A requested control write as plain values: device, control, value, and
/// whether the write succeeded.
pub type ControlWrite = (Seq<char>, ControlId, i32, bool);

/// Device enumeration, control access and format queries of one kind of
/// camera transport.
///
/// Each query has a spec function that says which answers the backend may
/// give in its current state; each implementation states its own. The
/// defaults allow any answer, so an implementation that defines none
/// promises nothing.
pub trait CameraBackend {
    /// Every control write requested of this backend, oldest first, with its
    /// outcome. An implementation that keeps no record cannot meet
    /// `set_control`'s contract, so every verified backend defines it.
    closed spec fn write_log(&self) -> Seq<ControlWrite> {
        Seq::empty()
    }

    /// The backend currently knows the device. By default a backend claims
    /// every device, which promises nothing about `DeviceNotFound`.
    closed spec fn owns(&self, id: Seq<char>) -> bool {
        true
    }

    /// `r` is an answer this backend may give to `enumerate_devices`.
    open spec fn devices_answer(&self, r: Result<Vec<CameraDevice>, CameraError>) -> bool {
        true
    }

    /// `r` is an answer this backend may give to `get_controls(id)`.
    open spec fn controls_answer(&self, id: Seq<char>, r: Result<Vec<ControlDescriptor>, CameraError>) -> bool {
        true
    }

    /// `r` is an answer this backend may give to `get_control(id, c)`.
    open spec fn control_answer(&self, id: Seq<char>, c: ControlId, r: Result<ControlValue, CameraError>) -> bool {
        true
    }

    /// `r` is an answer this backend may give to `set_control(id, c, v)`.
    open spec fn write_answer(&self, id: Seq<char>, c: ControlId, v: i32, r: Result<(), CameraError>) -> bool {
        true
    }

    /// `r` is an answer this backend may give to `get_formats(id)`.
    open spec fn formats_answer(&self, id: Seq<char>, r: Result<Vec<FormatDescriptor>, CameraError>) -> bool {
        true
    }

    /// A snapshot of the connected cameras.
    fn enumerate_devices(&mut self) -> (r: Result<Vec<CameraDevice>, CameraError>)
        ensures
            final(self).write_log() == old(self).write_log(),
            old(self).devices_answer(r),
    ;

    /// Registers `callback` for connect and disconnect events, which a
    /// backend-internal thread delivers.
    fn watch_hotplug<F: Fn(HotplugEvent) + Clone + Send + 'static>(&mut self, callback: F) -> (r: Result<(), CameraError>)
        ensures
            final(self).write_log() == old(self).write_log(),
    ;

    /// All controls of a device, with current values and ranges.
    fn get_controls(&mut self, id: &DeviceId) -> (r: Result<Vec<ControlDescriptor>, CameraError>)
        ensures
            final(self).write_log() == old(self).write_log(),
            !old(self).owns(id@) ==> not_found(&r),
            old(self).controls_answer(id@, r),
    ;

    /// The current value of one control.
    fn get_control(&mut self, id: &DeviceId, control: &ControlId) -> (r: Result<ControlValue, CameraError>)
        ensures
            final(self).write_log() == old(self).write_log(),
            !old(self).owns(id@) ==> not_found(&r),
            old(self).control_answer(id@, *control, r),
    ;

    /// Writes one control.
    fn set_control(&mut self, id: &DeviceId, control: &ControlId, value: ControlValue) -> (r: Result<(), CameraError>)
        ensures
            final(self).write_log() == old(self).write_log().push((id@, *control, value@, r is Ok)),
            !old(self).owns(id@) ==> not_found(&r),
            old(self).write_answer(id@, *control, value@, r),
    ;

    /// The video formats of a device.
    fn get_formats(&mut self, id: &DeviceId) -> (r: Result<Vec<FormatDescriptor>, CameraError>)
        ensures
            final(self).write_log() == old(self).write_log(),
            !old(self).owns(id@) ==> not_found(&r),
            old(self).formats_answer(id@, r),
    ;
}

/// `r` is `DeviceNotFound` naming `id`.
pub open spec fn not_found_for<T>(r: &Result<T, CameraError>, id: Seq<char>) -> bool {
    match r {
        Err(CameraError::DeviceNotFound(s)) => s@ == id,
        _ => false,
    }
}

/// The devices of the successful enumerations, in backend order.
pub open spec fn merged_devices(results: Seq<Result<Seq<Seq<char>>, CameraError>>) -> Seq<Seq<char>>
    decreases results.len(),
{
    if results.len() == 0 {
        Seq::empty()
    } else {
        merged_devices(results.drop_last()) + match results.last() {
            Ok(ids) => ids,
            Err(_) => Seq::empty(),
        }
    }
}

/// The identifiers of a device list.
pub open spec fn device_ids(devices: Seq<CameraDevice>) -> Seq<Seq<char>> {
    Seq::new(devices.len(), |i: int| devices[i].id@)
}

/// One enumeration result as identifiers.
pub open spec fn result_ids(r: Result<Vec<CameraDevice>, CameraError>) -> Result<Seq<Seq<char>>, CameraError> {
    match r {
        Ok(v) => Ok(device_ids(v@)),
        Err(e) => Err(e),
    }
}

/// Appends the devices of a successful enumeration to `all`; a failed one
/// adds nothing.
pub fn merge_enumeration(all: &mut Vec<CameraDevice>, result: Result<Vec<CameraDevice>, CameraError>)
    ensures
        device_ids(final(all)@) == device_ids(old(all)@) + match result_ids(result) {
            Ok(ids) => ids,
            Err(_) => Seq::empty(),
        },
{
    match result {
        Ok(mut devices) => {
            let ghost a = all@;
            let ghost d = devices@;
            all.append(&mut devices);
            assert(device_ids(all@) =~= device_ids(a) + device_ids(d));
        },
        Err(_) => {
        },
    }
}

/// Merging keeps every device of every successful enumeration: if some
/// enumeration succeeded with devices, the merged list is not empty, whatever
/// the others did.
pub proof fn lemma_merge_keeps_successes(results: Seq<Result<Seq<Seq<char>>, CameraError>>, k: int)
    requires
        0 <= k < results.len(),
        results[k] is Ok,
    ensures
        merged_devices(results).len() >= results[k]->Ok_0.len(),
    decreases results.len(),
{
    if k < results.len() - 1 {
        lemma_merge_keeps_successes(results.drop_last(), k);
    }
}

} // verus!
