//! A backend that merges the devices of several backends and routes each
//! device operation to the backend that owns the device.

use vstd::prelude::*;
use crate::backend::{
    device_ids, merge_enumeration, merged_devices, not_found, not_found_for, result_ids, CameraBackend,
    ControlWrite,
};
use crate::error::CameraError;
use crate::types::{
    CameraDevice, ControlDescriptor, ControlId, ControlValue, DeviceId, FormatDescriptor, HotplugEvent,
};

verus! {

/// Whether a result is the `DeviceNotFound` error.
pub fn is_not_found<T>(r: &Result<T, CameraError>) -> (b: bool)
    ensures
        b == not_found(r),
{
    match r {
        Err(CameraError::DeviceNotFound(_)) => true,
        _ => false,
    }
}

/// `results` are answers the sub-backends `bs` may give to enumeration, one
/// each, in order.
pub open spec fn enumerated_by<B: CameraBackend>(bs: Seq<B>, results: Seq<Result<Vec<CameraDevice>, CameraError>>) -> bool {
    results.len() == bs.len() && forall|i: int| 0 <= i < bs.len() ==> #[trigger] bs[i].devices_answer(results[i])
}

/// The devices of the successful enumeration results, in order.
pub open spec fn merged_results(results: Seq<Result<Vec<CameraDevice>, CameraError>>) -> Seq<Seq<char>> {
    merged_devices(results.map_values(|r: Result<Vec<CameraDevice>, CameraError>| result_ids(r)))
}

/// Sub-backend `b` may answer `DeviceNotFound` to `get_controls(id)`.
pub open spec fn declines_controls<B: CameraBackend>(b: B, id: Seq<char>) -> bool {
    exists|e: CameraError| e is DeviceNotFound && #[trigger] b.controls_answer(id, Err(e))
}

/// Sub-backend `b` may answer `DeviceNotFound` to `get_control(id, c)`.
pub open spec fn declines_control<B: CameraBackend>(b: B, id: Seq<char>, c: ControlId) -> bool {
    exists|e: CameraError| e is DeviceNotFound && #[trigger] b.control_answer(id, c, Err(e))
}

/// Sub-backend `b` may answer `DeviceNotFound` to `set_control(id, c, v)`.
pub open spec fn declines_write<B: CameraBackend>(b: B, id: Seq<char>, c: ControlId, v: i32) -> bool {
    exists|e: CameraError| e is DeviceNotFound && #[trigger] b.write_answer(id, c, v, Err(e))
}

/// Sub-backend `b` may answer `DeviceNotFound` to `get_formats(id)`.
pub open spec fn declines_formats<B: CameraBackend>(b: B, id: Seq<char>) -> bool {
    exists|e: CameraError| e is DeviceNotFound && #[trigger] b.formats_answer(id, Err(e))
}

/// An ordered list of backends acting as one.
pub struct CompositeBackend<B: CameraBackend> {
    backends: Vec<B>,
    writes: Ghost<Seq<ControlWrite>>,
}

impl<B: CameraBackend> CompositeBackend<B> {
    /// The sub-backends, in routing order.
    pub closed spec fn backends(&self) -> Seq<B> {
        self.backends@
    }

    /// A composite over `backends`, tried in the given order.
    pub fn new(backends: Vec<B>) -> (r: CompositeBackend<B>)
        ensures
            r.backends() == backends@,
            r.write_log() == Seq::<ControlWrite>::empty(),
    {
        CompositeBackend { backends, writes: Ghost(Seq::empty()) }
    }

    fn route_write(&mut self, id: &DeviceId, control: &ControlId, value: ControlValue) -> (r: Result<(), CameraError>)
        ensures
            final(self).backends().len() == old(self).backends().len(),
            final(self).writes == old(self).writes,
            old(self).write_answer(id@, *control, value@, r),
            !old(self).owns(id@) ==> not_found(&r),
    {
        let n = self.backends.len();
        let mut i: usize = 0;
        while i < n
            invariant
                self.backends@.len() == n,
                n == old(self).backends@.len(),
                i <= n,
                self.writes == old(self).writes,
                forall|j: int| i <= j < n ==> #[trigger] self.backends@[j] == old(self).backends@[j],
                forall|j: int| 0 <= j < i ==> #[trigger] declines_write(old(self).backends@[j], id@, *control, value@),
            decreases n - i,
        {
            let mut b = self.backends.remove(i);
            let res = b.set_control(id, control, value);
            self.backends.insert(i, b);
            if !is_not_found(&res) {
                assert(old(self).backends() =~= old(self).backends@);
                assert(old(self).backends()[i as int].write_answer(id@, *control, value@, res));
                assert(forall|k: int| 0 <= k < i ==> #[trigger] old(self).backends()[k] == old(self).backends@[k]);
                assert(old(self).backends@[i as int].owns(id@));
                return res;
            }
            proof {
                let e = res->Err_0;
                assert(old(self).backends@[i as int].write_answer(id@, *control, value@, Err(e)));
            }
            i += 1;
        }
        Err(CameraError::DeviceNotFound(id.to_string()))
    }
}

impl<B: CameraBackend> CameraBackend for CompositeBackend<B> {
    closed spec fn write_log(&self) -> Seq<ControlWrite> {
        self.writes@
    }

    closed spec fn owns(&self, id: Seq<char>) -> bool {
        exists|j: int| 0 <= j < self.backends@.len() && #[trigger] self.backends@[j].owns(id)
    }

    open spec fn devices_answer(&self, r: Result<Vec<CameraDevice>, CameraError>) -> bool {
        &&& r is Ok
        &&& exists|results: Seq<Result<Vec<CameraDevice>, CameraError>>|
            #[trigger] enumerated_by(self.backends(), results) && device_ids(r->Ok_0@) == merged_results(results)
    }

    open spec fn controls_answer(&self, id: Seq<char>, r: Result<Vec<ControlDescriptor>, CameraError>) -> bool {
        ||| (!not_found(&r) && exists|j: int|
            0 <= j < self.backends().len() && #[trigger] self.backends()[j].controls_answer(id, r) && forall|i: int|
                0 <= i < j ==> declines_controls(#[trigger] self.backends()[i], id))
        ||| (not_found_for(&r, id) && forall|i: int|
            0 <= i < self.backends().len() ==> declines_controls(#[trigger] self.backends()[i], id))
    }

    open spec fn control_answer(&self, id: Seq<char>, c: ControlId, r: Result<ControlValue, CameraError>) -> bool {
        ||| (!not_found(&r) && exists|j: int|
            0 <= j < self.backends().len() && #[trigger] self.backends()[j].control_answer(id, c, r) && forall|i: int|
                0 <= i < j ==> declines_control(#[trigger] self.backends()[i], id, c))
        ||| (not_found_for(&r, id) && forall|i: int|
            0 <= i < self.backends().len() ==> declines_control(#[trigger] self.backends()[i], id, c))
    }

    open spec fn write_answer(&self, id: Seq<char>, c: ControlId, v: i32, r: Result<(), CameraError>) -> bool {
        ||| (!not_found(&r) && exists|j: int|
            0 <= j < self.backends().len() && #[trigger] self.backends()[j].write_answer(id, c, v, r) && forall|i: int|
                0 <= i < j ==> declines_write(#[trigger] self.backends()[i], id, c, v))
        ||| (not_found_for(&r, id) && forall|i: int|
            0 <= i < self.backends().len() ==> declines_write(#[trigger] self.backends()[i], id, c, v))
    }

    open spec fn formats_answer(&self, id: Seq<char>, r: Result<Vec<FormatDescriptor>, CameraError>) -> bool {
        ||| (!not_found(&r) && exists|j: int|
            0 <= j < self.backends().len() && #[trigger] self.backends()[j].formats_answer(id, r) && forall|i: int|
                0 <= i < j ==> declines_formats(#[trigger] self.backends()[i], id))
        ||| (not_found_for(&r, id) && forall|i: int|
            0 <= i < self.backends().len() ==> declines_formats(#[trigger] self.backends()[i], id))
    }

    /// Concatenates the devices of every sub-backend whose enumeration
    /// succeeds, in order; a failing sub-backend is skipped, so the
    /// composite itself never fails.
    fn enumerate_devices(&mut self) -> (r: Result<Vec<CameraDevice>, CameraError>)
        ensures
            final(self).backends().len() == old(self).backends().len(),
    {
        let n = self.backends.len();
        let mut all: Vec<CameraDevice> = Vec::new();
        let ghost mut results: Seq<Result<Vec<CameraDevice>, CameraError>> = Seq::empty();
        let mut i: usize = 0;
        assert(results.map_values(|r: Result<Vec<CameraDevice>, CameraError>| result_ids(r)) =~= Seq::empty());
        assert(device_ids(all@) =~= merged_results(results));
        while i < n
            invariant
                self.backends@.len() == n,
                n == old(self).backends@.len(),
                i <= n,
                self.writes@ == old(self).writes@,
                results.len() == i,
                forall|j: int| i <= j < n ==> #[trigger] self.backends@[j] == old(self).backends@[j],
                forall|j: int| 0 <= j < i ==> #[trigger] old(self).backends@[j].devices_answer(results[j]),
                device_ids(all@) == merged_results(results),
            decreases n - i,
        {
            let mut b = self.backends.remove(i);
            let res = b.enumerate_devices();
            self.backends.insert(i, b);
            let ghost rr = res;
            merge_enumeration(&mut all, res);
            proof {
                let f = |r: Result<Vec<CameraDevice>, CameraError>| result_ids(r);
                assert(results.push(rr).map_values(f).drop_last() =~= results.map_values(f));
                assert(results.push(rr).map_values(f).last() == result_ids(rr));
                results = results.push(rr);
            }
            i += 1;
        }
        assert(enumerated_by(old(self).backends(), results));
        let out: Result<Vec<CameraDevice>, CameraError> = Ok(all);
        assert(device_ids(out->Ok_0@) == merged_results(results));
        out
    }

    /// Registers a copy of `callback` with every sub-backend, in order; a
    /// failing registration is skipped, so the composite itself never fails.
    fn watch_hotplug<F: Fn(HotplugEvent) + Clone + Send + 'static>(&mut self, callback: F) -> (r: Result<(), CameraError>)
        ensures
            r is Ok,
            final(self).backends().len() == old(self).backends().len(),
    {
        let n = self.backends.len();
        let mut i: usize = 0;
        while i < n
            invariant
                self.backends@.len() == n,
                n == old(self).backends@.len(),
                i <= n,
                self.writes@ == old(self).writes@,
            decreases n - i,
        {
            let mut b = self.backends.remove(i);
            let _ = b.watch_hotplug(callback.clone());
            self.backends.insert(i, b);
            i += 1;
        }
        Ok(())
    }

    /// The answer of the first sub-backend that does not answer
    /// `DeviceNotFound`; `DeviceNotFound` when every one of them does.
    fn get_controls(&mut self, id: &DeviceId) -> (r: Result<Vec<ControlDescriptor>, CameraError>)
        ensures
            final(self).backends().len() == old(self).backends().len(),
    {
        let n = self.backends.len();
        let mut i: usize = 0;
        while i < n
            invariant
                self.backends@.len() == n,
                n == old(self).backends@.len(),
                i <= n,
                self.writes@ == old(self).writes@,
                forall|j: int| i <= j < n ==> #[trigger] self.backends@[j] == old(self).backends@[j],
                forall|j: int| 0 <= j < i ==> #[trigger] declines_controls(old(self).backends@[j], id@),
            decreases n - i,
        {
            let mut b = self.backends.remove(i);
            let res = b.get_controls(id);
            self.backends.insert(i, b);
            if !is_not_found(&res) {
                assert(old(self).backends() =~= old(self).backends@);
                assert(old(self).backends()[i as int].controls_answer(id@, res));
                assert(forall|k: int| 0 <= k < i ==> #[trigger] old(self).backends()[k] == old(self).backends@[k]);
                return res;
            }
            proof {
                let e = res->Err_0;
                assert(old(self).backends@[i as int].controls_answer(id@, Err(e)));
            }
            i += 1;
        }
        Err(CameraError::DeviceNotFound(id.to_string()))
    }

    /// The answer of the first sub-backend that does not answer
    /// `DeviceNotFound`; `DeviceNotFound` when every one of them does.
    fn get_control(&mut self, id: &DeviceId, control: &ControlId) -> (r: Result<ControlValue, CameraError>)
        ensures
            final(self).backends().len() == old(self).backends().len(),
    {
        let n = self.backends.len();
        let mut i: usize = 0;
        while i < n
            invariant
                self.backends@.len() == n,
                n == old(self).backends@.len(),
                i <= n,
                self.writes@ == old(self).writes@,
                forall|j: int| i <= j < n ==> #[trigger] self.backends@[j] == old(self).backends@[j],
                forall|j: int| 0 <= j < i ==> #[trigger] declines_control(old(self).backends@[j], id@, *control),
            decreases n - i,
        {
            let mut b = self.backends.remove(i);
            let res = b.get_control(id, control);
            self.backends.insert(i, b);
            if !is_not_found(&res) {
                assert(old(self).backends() =~= old(self).backends@);
                assert(old(self).backends()[i as int].control_answer(id@, *control, res));
                assert(forall|k: int| 0 <= k < i ==> #[trigger] old(self).backends()[k] == old(self).backends@[k]);
                return res;
            }
            proof {
                let e = res->Err_0;
                assert(old(self).backends@[i as int].control_answer(id@, *control, Err(e)));
            }
            i += 1;
        }
        Err(CameraError::DeviceNotFound(id.to_string()))
    }

    /// Routed like `get_controls`; the write is recorded with its outcome.
    fn set_control(&mut self, id: &DeviceId, control: &ControlId, value: ControlValue) -> (r: Result<(), CameraError>)
        ensures
            final(self).backends().len() == old(self).backends().len(),
    {
        let r = self.route_write(id, control, value);
        self.writes = Ghost(self.writes@.push((id@, *control, value@, r is Ok)));
        r
    }

    /// The answer of the first sub-backend that does not answer
    /// `DeviceNotFound`; `DeviceNotFound` when every one of them does.
    fn get_formats(&mut self, id: &DeviceId) -> (r: Result<Vec<FormatDescriptor>, CameraError>)
        ensures
            final(self).backends().len() == old(self).backends().len(),
    {
        let n = self.backends.len();
        let mut i: usize = 0;
        while i < n
            invariant
                self.backends@.len() == n,
                n == old(self).backends@.len(),
                i <= n,
                self.writes@ == old(self).writes@,
                forall|j: int| i <= j < n ==> #[trigger] self.backends@[j] == old(self).backends@[j],
                forall|j: int| 0 <= j < i ==> #[trigger] declines_formats(old(self).backends@[j], id@),
            decreases n - i,
        {
            let mut b = self.backends.remove(i);
            let res = b.get_formats(id);
            self.backends.insert(i, b);
            if !is_not_found(&res) {
                assert(old(self).backends() =~= old(self).backends@);
                assert(old(self).backends()[i as int].formats_answer(id@, res));
                assert(forall|k: int| 0 <= k < i ==> #[trigger] old(self).backends()[k] == old(self).backends@[k]);
                return res;
            }
            proof {
                let e = res->Err_0;
                assert(old(self).backends@[i as int].formats_answer(id@, Err(e)));
            }
            i += 1;
        }
        Err(CameraError::DeviceNotFound(id.to_string()))
    }
}

} // verus!
