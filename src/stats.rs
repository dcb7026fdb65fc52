//! Per-session diagnostic counters. Times are microseconds on a monotonic
//! clock that the caller reads.

use vstd::prelude::*;

verus! {

/// Rolling counters of one preview session.
#[derive(Debug)]
pub struct DiagnosticStats {
    pub frame_count: u64,
    pub drop_count: u64,
    pub total_bytes: u64,
    pub start_us: u64,
    pub last_frame_us: Option<u64>,
    pub latency_us: u64,
    pub usb_bus_info: Option<String>,
}

/// `a + b`, held at `u64::MAX`.
pub open spec fn sat_add(a: u64, b: int) -> u64 {
    if a + b > u64::MAX {
        u64::MAX
    } else {
        (a + b) as u64
    }
}

/// Microseconds from `start` to `now`, zero if the clock reads earlier.
pub open spec fn elapsed(start: u64, now: u64) -> u64 {
    if now >= start {
        (now - start) as u64
    } else {
        0
    }
}

/// Bytes per second over `elapsed_us` microseconds, zero below a
/// millisecond and held at `u64::MAX`.
pub open spec fn bandwidth(total_bytes: u64, elapsed_us: u64) -> int {
    if elapsed_us < 1000 {
        0
    } else if (total_bytes as int * 1_000_000) / (elapsed_us as int) > u64::MAX {
        u64::MAX as int
    } else {
        (total_bytes as int * 1_000_000) / (elapsed_us as int)
    }
}

impl DiagnosticStats {
    /// Fresh counters for a session that starts at `now_us`.
    pub fn new(now_us: u64) -> (r: DiagnosticStats)
        ensures
            r.frame_count == 0,
            r.drop_count == 0,
            r.total_bytes == 0,
            r.start_us == now_us,
            r.last_frame_us is None,
            r.latency_us == 0,
            r.usb_bus_info is None,
    {
        DiagnosticStats {
            frame_count: 0,
            drop_count: 0,
            total_bytes: 0,
            start_us: now_us,
            last_frame_us: None,
            latency_us: 0,
            usb_bus_info: None,
        }
    }

    /// Records the USB bus the camera sits on.
    pub fn set_usb_bus_info(&mut self, info: Option<String>)
        ensures
            final(self).usb_bus_info == info,
            final(self).frame_count == old(self).frame_count,
            final(self).drop_count == old(self).drop_count,
            final(self).total_bytes == old(self).total_bytes,
            final(self).start_us == old(self).start_us,
            final(self).last_frame_us == old(self).last_frame_us,
            final(self).latency_us == old(self).latency_us,
    {
        self.usb_bus_info = info;
    }

    /// Records a delivered frame of `bytes` bytes, captured at
    /// `capture_timestamp_us` (session time) and delivered at `now_us`. The
    /// latency is updated only when the capture time is not in the future.
    pub fn record_frame(&mut self, bytes: usize, capture_timestamp_us: u64, now_us: u64)
        ensures
            final(self).frame_count == sat_add(old(self).frame_count, 1),
            final(self).total_bytes == sat_add(old(self).total_bytes, bytes as int),
            final(self).last_frame_us == Some(now_us),
            final(self).latency_us == if capture_timestamp_us <= elapsed(old(self).start_us, now_us) {
                (elapsed(old(self).start_us, now_us) - capture_timestamp_us) as u64
            } else {
                old(self).latency_us
            },
            final(self).drop_count == old(self).drop_count,
            final(self).start_us == old(self).start_us,
            final(self).usb_bus_info == old(self).usb_bus_info,
    {
        self.frame_count = self.frame_count.saturating_add(1);
        self.total_bytes = self.total_bytes.saturating_add(bytes as u64);
        self.last_frame_us = Some(now_us);
        let now_rel = now_us.saturating_sub(self.start_us);
        if capture_timestamp_us <= now_rel {
            self.latency_us = now_rel - capture_timestamp_us;
        }
    }

    /// Records a dropped frame.
    pub fn record_drop(&mut self)
        ensures
            final(self).drop_count == sat_add(old(self).drop_count, 1),
            final(self).frame_count == old(self).frame_count,
            final(self).total_bytes == old(self).total_bytes,
            final(self).start_us == old(self).start_us,
            final(self).last_frame_us == old(self).last_frame_us,
            final(self).latency_us == old(self).latency_us,
            final(self).usb_bus_info == old(self).usb_bus_info,
    {
        self.drop_count = self.drop_count.saturating_add(1);
    }

    /// Bytes per second since the session started, zero during the first
    /// millisecond.
    pub fn bandwidth_bps(&self, now_us: u64) -> (r: u64)
        ensures
            r as int == bandwidth(self.total_bytes, elapsed(self.start_us, now_us)),
    {
        let e = now_us.saturating_sub(self.start_us);
        if e < 1000 {
            return 0;
        }
        let total = self.total_bytes as u128 * 1_000_000u128;
        let r = total / (e as u128);
        if r > u64::MAX as u128 {
            u64::MAX
        } else {
            r as u64
        }
    }

    /// Clears every counter and restarts the session clock at `now_us`.
    pub fn reset(&mut self, now_us: u64)
        ensures
            final(self).frame_count == 0,
            final(self).drop_count == 0,
            final(self).total_bytes == 0,
            final(self).start_us == now_us,
            final(self).last_frame_us is None,
            final(self).latency_us == 0,
            final(self).usb_bus_info is None,
    {
        self.frame_count = 0;
        self.drop_count = 0;
        self.total_bytes = 0;
        self.start_us = now_us;
        self.last_frame_us = None;
        self.latency_us = 0;
        self.usb_bus_info = None;
    }
}

} // verus!
