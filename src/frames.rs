//! Captured frames, the bounded frame ring, the per-sample delivery path and
//! the stalled-stream watchdog.

use vstd::prelude::*;
use crate::convert::{
    bgr_converted, convert_bgr_bottom_up_to_rgb, convert_nv12_to_rgb, convert_yuy2_to_rgb,
    nv12_converted, yuy2_converted,
};
use crate::stats::{elapsed, sat_add, DiagnosticStats};
use crate::text::{dec_digits, push_dec, push_str};

verus! {

/// One captured frame of RGB24 pixels.
#[derive(Debug)]
pub struct Frame {
    pub data: Vec<u8>,
    pub width: u32,
    pub height: u32,
    pub timestamp_us: u64,
}

/// The contents of a frame as plain values.
pub open spec fn frame_view(f: &Frame) -> (Seq<u8>, u32, u32, u64) {
    (f.data@, f.width, f.height, f.timestamp_us)
}

/// The sequence counter after the frames `pushed` went in: their number,
/// wrapping at 2^64.
pub open spec fn sequence_of(pushed: Seq<(Seq<u8>, u32, u32, u64)>) -> u64 {
    (pushed.len() % 0x1_0000_0000_0000_0000) as u64
}

/// The frame that `latest` hands out after the frames `pushed` went in.
pub open spec fn latest_of(pushed: Seq<(Seq<u8>, u32, u32, u64)>) -> Option<(Seq<u8>, u32, u32, u64)> {
    if pushed.len() == 0 {
        None
    } else {
        Some(pushed.last())
    }
}

/// Ring of `capacity` frame slots with a write index and a monotonic
/// sequence counter that counts every push.
pub struct FrameBuffer {
    frames: Vec<Option<Frame>>,
    capacity: usize,
    write_idx: usize,
    sequence: u64,
    pushed: Ghost<Seq<(Seq<u8>, u32, u32, u64)>>,
}

impl FrameBuffer {
    /// Every frame pushed so far, oldest first.
    pub closed spec fn pushed(&self) -> Seq<(Seq<u8>, u32, u32, u64)> {
        self.pushed@
    }

    /// Number of slots.
    pub closed spec fn capacity_spec(&self) -> nat {
        self.capacity as nat
    }

    /// The ring's invariant: one slot per unit of capacity, the write index in
    /// range, the counter matching the pushes, and the slot before the write
    /// index holding the newest frame.
    pub closed spec fn well_formed(&self) -> bool {
        &&& self.frames@.len() == self.capacity
        &&& self.sequence == sequence_of(self.pushed@)
        &&& (self.capacity == 0 ==> self.pushed@.len() == 0 && self.write_idx == 0)
        &&& (self.capacity > 0 ==> self.write_idx < self.capacity)
        &&& (self.pushed@.len() == 0 ==> forall|i: int| 0 <= i < self.frames@.len() ==> #[trigger] self.frames@[i] is None)
        &&& (self.capacity > 0 && self.pushed@.len() > 0 ==> {
            let slot = self.frames@[(self.write_idx + self.capacity - 1) % (self.capacity as int)];
            slot is Some && frame_view(&slot->0) == self.pushed@.last()
        })
    }

    /// An empty ring with `capacity` slots.
    pub fn new(capacity: usize) -> (r: FrameBuffer)
        ensures
            r.well_formed(),
            r.capacity_spec() == capacity,
            r.pushed() == Seq::<(Seq<u8>, u32, u32, u64)>::empty(),
    {
        let mut frames: Vec<Option<Frame>> = Vec::new();
        let mut i: usize = 0;
        while i < capacity
            invariant
                i <= capacity,
                frames@.len() == i,
                forall|j: int| 0 <= j < i ==> #[trigger] frames@[j] is None,
            decreases capacity - i,
        {
            frames.push(None);
            i += 1;
        }
        FrameBuffer { frames, capacity, write_idx: 0, sequence: 0, pushed: Ghost(Seq::empty()) }
    }

    /// Stores `frame` in the slot at the write index, overwriting the oldest
    /// frame once the ring is full, and counts it.
    pub fn push(&mut self, frame: Frame)
        requires
            old(self).well_formed(),
            old(self).capacity_spec() > 0,
        ensures
            final(self).well_formed(),
            final(self).capacity_spec() == old(self).capacity_spec(),
            final(self).pushed() == old(self).pushed().push(frame_view(&frame)),
    {
        let ghost fv = frame_view(&frame);
        let idx = self.write_idx;
        self.frames.set(idx, Some(frame));
        self.write_idx = if idx + 1 == self.capacity {
            0
        } else {
            idx + 1
        };
        self.sequence = self.sequence.wrapping_add(1);
        self.pushed = Ghost(self.pushed@.push(fv));
        proof {
            let cap = self.capacity as int;
            assert((self.write_idx + cap - 1) % cap == idx as int) by {
                if idx + 1 == cap {
                    assert((0 + cap - 1) % cap == cap - 1) by (nonlinear_arith)
                        requires
                            cap > 0,
                    ;
                } else {
                    assert((idx + 1 + cap - 1) % cap == idx) by (nonlinear_arith)
                        requires
                            cap > 0,
                            0 <= idx < cap,
                    ;
                }
            }
            assert(self.pushed@.len() % 0x1_0000_0000_0000_0000 == if old(self).sequence
                == u64::MAX {
                0
            } else {
                old(self).sequence + 1
            });
        }
    }

    /// The monotonic count of pushes, independent of frame timestamps.
    pub fn sequence(&self) -> (r: u64)
        requires
            self.well_formed(),
        ensures
            r == sequence_of(self.pushed()),
    {
        self.sequence
    }

    /// The most recently pushed frame, shared by reference.
    pub fn latest(&self) -> (r: Option<&Frame>)
        requires
            self.well_formed(),
        ensures
            match r {
                Some(f) => latest_of(self.pushed()) == Some(frame_view(f)),
                None => latest_of(self.pushed()) is None,
            },
    {
        if self.capacity == 0 {
            return None;
        }
        let idx = if self.write_idx == 0 {
            self.capacity - 1
        } else {
            self.write_idx - 1
        };
        proof {
            let cap = self.capacity as int;
            assert((self.write_idx + cap - 1) % cap == idx as int) by {
                if self.write_idx == 0 {
                    assert((0 + cap - 1) % cap == cap - 1) by (nonlinear_arith)
                        requires
                            cap > 0,
                    ;
                } else {
                    assert((self.write_idx + cap - 1) % cap == self.write_idx - 1) by (nonlinear_arith)
                        requires
                            cap > 0,
                            0 < self.write_idx < cap,
                    ;
                }
            }
        }
        match &self.frames[idx] {
            Some(f) => Some(f),
            None => None,
        }
    }
}

/// After pushing `K` frames into an empty ring, with `K` below 2^64, the
/// newest frame is the `K`-th one pushed and the sequence counter is `K`.
pub proof fn lemma_latest_after_pushes(frames: Seq<(Seq<u8>, u32, u32, u64)>)
    requires
        0 < frames.len() < 0x1_0000_0000_0000_0000,
    ensures
        latest_of(frames) == Some(frames[frames.len() - 1]),
        sequence_of(frames) == frames.len(),
{
}

/// Pixel format that the capture graph negotiated.
#[derive(Debug, Clone, Copy, PartialEq, Eq, Structural)]
pub enum PixelSubtype {
    Rgb24,
    Yuy2,
    Nv12,
    Other,
}

/// What became of one sample from the capture graph.
#[derive(Debug, Clone, Copy, PartialEq, Eq, Structural)]
pub enum SampleOutcome {
    /// The session is not running: the sample was drained unseen.
    Ignored,
    /// The sample was empty, too short or of an unsupported format.
    Dropped,
    /// The sample was converted and pushed.
    Delivered,
}

/// Bytes that a sample of this format and size must hold at least.
pub open spec fn min_sample_len(subtype: PixelSubtype, width: int, height: int) -> int {
    match subtype {
        PixelSubtype::Rgb24 => width * height * 3,
        PixelSubtype::Yuy2 => width * height * 2,
        PixelSubtype::Nv12 => width * height * 3 / 2,
        PixelSubtype::Other => 0,
    }
}

/// The sample can be converted: a supported format, non-empty, long enough,
/// of a size whose RGB form fits in memory, and for NV12 of even size.
pub open spec fn sample_usable(subtype: PixelSubtype, len: int, width: int, height: int) -> bool {
    &&& len > 0
    &&& subtype != PixelSubtype::Other
    &&& width * height * 3 <= usize::MAX
    &&& len >= min_sample_len(subtype, width, height)
    &&& (subtype == PixelSubtype::Nv12 ==> width % 2 == 0 && height % 2 == 0)
}

/// `rgb` is the conversion of the sample `data` to RGB24.
pub open spec fn sample_converted(subtype: PixelSubtype, data: Seq<u8>, width: int, height: int, rgb: Seq<u8>) -> bool {
    match subtype {
        PixelSubtype::Rgb24 => bgr_converted(data, width, height, rgb),
        PixelSubtype::Yuy2 => yuy2_converted(data, width, height, rgb),
        PixelSubtype::Nv12 => nv12_converted(data, width, height, rgb),
        PixelSubtype::Other => false,
    }
}

/// Handles one sample delivered by the capture graph: ignores it while the
/// session is not running, drops it (and counts the drop) when it cannot be
/// converted, and otherwise converts it to RGB24, pushes the frame and counts
/// its bytes.
pub fn handle_sample(
    buffer: &mut FrameBuffer,
    stats: &mut DiagnosticStats,
    running: bool,
    subtype: PixelSubtype,
    data: &[u8],
    width: u32,
    height: u32,
    timestamp_us: u64,
    now_us: u64,
) -> (r: SampleOutcome)
    requires
        old(buffer).well_formed(),
        old(buffer).capacity_spec() > 0,
    ensures
        final(buffer).well_formed(),
        final(buffer).capacity_spec() == old(buffer).capacity_spec(),
        !running ==> r == SampleOutcome::Ignored,
        running && !sample_usable(subtype, data@.len() as int, width as int, height as int)
            ==> r == SampleOutcome::Dropped,
        running && sample_usable(subtype, data@.len() as int, width as int, height as int)
            ==> r == SampleOutcome::Delivered,
        r != SampleOutcome::Delivered ==> final(buffer).pushed() == old(buffer).pushed(),
        r == SampleOutcome::Ignored ==> *final(stats) == *old(stats),
        r == SampleOutcome::Dropped ==> final(stats).drop_count == sat_add(old(stats).drop_count, 1)
            && final(stats).frame_count == old(stats).frame_count,
        r == SampleOutcome::Delivered ==> {
            let f = final(buffer).pushed().last();
            &&& final(buffer).pushed().drop_last() == old(buffer).pushed()
            &&& sample_converted(subtype, data@, width as int, height as int, f.0)
            &&& f.1 == width && f.2 == height && f.3 == timestamp_us
            &&& final(stats).frame_count == sat_add(old(stats).frame_count, 1)
            &&& final(stats).total_bytes == sat_add(old(stats).total_bytes, f.0.len() as int)
            &&& final(stats).drop_count == old(stats).drop_count
        },
{
    if !running {
        return SampleOutcome::Ignored;
    }
    let len = data.len();
    let w = width as u64;
    let h = height as u64;
    proof {
        assert(w * h <= 0xFFFF_FFFFint * 0xFFFF_FFFFint) by (nonlinear_arith)
            requires
                w <= 0xFFFF_FFFF,
                h <= 0xFFFF_FFFF,
        ;
    }
    let wh = w as u128 * h as u128;
    if len == 0 || wh * 3 > usize::MAX as u128 {
        stats.record_drop();
        return SampleOutcome::Dropped;
    }
    let wu = width as usize;
    let hu = height as usize;
    let rgb = match subtype {
        PixelSubtype::Rgb24 => {
            if len < wu * hu * 3 {
                stats.record_drop();
                return SampleOutcome::Dropped;
            }
            convert_bgr_bottom_up_to_rgb(data, wu, hu)
        },
        PixelSubtype::Yuy2 => {
            if len < wu * hu * 2 {
                stats.record_drop();
                return SampleOutcome::Dropped;
            }
            convert_yuy2_to_rgb(data, wu, hu)
        },
        PixelSubtype::Nv12 => {
            if len < wu * hu * 3 / 2 || wu % 2 != 0 || hu % 2 != 0 {
                stats.record_drop();
                return SampleOutcome::Dropped;
            }
            convert_nv12_to_rgb(data, wu, hu)
        },
        PixelSubtype::Other => {
            stats.record_drop();
            return SampleOutcome::Dropped;
        },
    };
    let frame_bytes = rgb.len();
    buffer.push(Frame { data: rgb, width, height, timestamp_us });
    stats.record_frame(frame_bytes, timestamp_us, now_us);
    proof {
        assert(final(buffer).pushed().drop_last() =~= old(buffer).pushed());
    }
    SampleOutcome::Delivered
}

/// Timeouts and poll interval of the watchdog, in milliseconds.
#[derive(Debug, Clone, Copy, PartialEq, Eq, Structural)]
pub struct WatchdogConfig {
    pub startup_timeout_ms: u64,
    pub frame_timeout_ms: u64,
    pub poll_interval_ms: u64,
}

impl WatchdogConfig {
    /// 30 s for the graph to start, 5 s for the first frame, polled every
    /// 250 ms.
    pub fn standard() -> (r: WatchdogConfig)
        ensures
            r.startup_timeout_ms == 30_000,
            r.frame_timeout_ms == 5_000,
            r.poll_interval_ms == 250,
    {
        WatchdogConfig { startup_timeout_ms: 30_000, frame_timeout_ms: 5_000, poll_interval_ms: 250 }
    }
}

/// Phase of the watchdog.
#[derive(Debug, Clone, Copy, PartialEq, Eq, Structural)]
pub enum WatchdogState {
    /// Waiting for the graph to set `running`, since the given time.
    Starting { since_ms: u64 },
    /// Running; waiting for the first frame until the given deadline.
    AwaitingFrame { deadline_ms: u64 },
}

/// What the watchdog thread does next.
#[derive(Debug, Clone, Copy, PartialEq, Eq, Structural)]
pub enum WatchdogAction {
    /// Sleep one poll interval, then observe again.
    Wait,
    /// Exit without reporting anything.
    Exit,
    /// Clear `running`, report that no frames arrived, and exit.
    Fail,
}

/// `a + b`, held at `u64::MAX`.
pub open spec fn sat_add_u64(a: u64, b: u64) -> u64 {
    if a + b > u64::MAX {
        u64::MAX
    } else {
        (a + b) as u64
    }
}

/// One decision of the frame phase.
pub open spec fn await_frame_step(deadline_ms: u64, now_ms: u64, shutdown: bool, running: bool, sequence: u64) -> WatchdogAction {
    if shutdown || !running {
        WatchdogAction::Exit
    } else if sequence > 0 {
        WatchdogAction::Exit
    } else if now_ms >= deadline_ms {
        WatchdogAction::Fail
    } else {
        WatchdogAction::Wait
    }
}

/// One decision of the watchdog: the next state and the action, given the
/// time and the observed flags and sequence counter. Once `running` is seen
/// during startup, the frame deadline is set and checked at once.
pub open spec fn watchdog_next(
    config: WatchdogConfig,
    state: WatchdogState,
    now_ms: u64,
    shutdown: bool,
    running: bool,
    sequence: u64,
) -> (WatchdogState, WatchdogAction) {
    match state {
        WatchdogState::Starting { since_ms } => {
            if shutdown {
                (state, WatchdogAction::Exit)
            } else if running {
                let deadline_ms = sat_add_u64(now_ms, config.frame_timeout_ms);
                (
                    WatchdogState::AwaitingFrame { deadline_ms },
                    await_frame_step(deadline_ms, now_ms, shutdown, running, sequence),
                )
            } else if elapsed(since_ms, now_ms) >= config.startup_timeout_ms {
                (state, WatchdogAction::Exit)
            } else {
                (state, WatchdogAction::Wait)
            }
        },
        WatchdogState::AwaitingFrame { deadline_ms } => {
            (state, await_frame_step(deadline_ms, now_ms, shutdown, running, sequence))
        },
    }
}

/// Decides the watchdog's next step.
pub fn watchdog_step(
    config: WatchdogConfig,
    state: WatchdogState,
    now_ms: u64,
    shutdown: bool,
    running: bool,
    sequence: u64,
) -> (r: (WatchdogState, WatchdogAction))
    ensures
        r == watchdog_next(config, state, now_ms, shutdown, running, sequence),
{
    match state {
        WatchdogState::Starting { since_ms } => {
            if shutdown {
                (state, WatchdogAction::Exit)
            } else if running {
                let deadline_ms = now_ms.saturating_add(config.frame_timeout_ms);
                let next = WatchdogState::AwaitingFrame { deadline_ms };
                (next, frame_phase(deadline_ms, now_ms, shutdown, running, sequence))
            } else if now_ms.saturating_sub(since_ms) >= config.startup_timeout_ms {
                (state, WatchdogAction::Exit)
            } else {
                (state, WatchdogAction::Wait)
            }
        },
        WatchdogState::AwaitingFrame { deadline_ms } => {
            (state, frame_phase(deadline_ms, now_ms, shutdown, running, sequence))
        },
    }
}

fn frame_phase(deadline_ms: u64, now_ms: u64, shutdown: bool, running: bool, sequence: u64) -> (r: WatchdogAction)
    ensures
        r == await_frame_step(deadline_ms, now_ms, shutdown, running, sequence),
{
    if shutdown || !running {
        WatchdogAction::Exit
    } else if sequence > 0 {
        WatchdogAction::Exit
    } else if now_ms >= deadline_ms {
        WatchdogAction::Fail
    } else {
        WatchdogAction::Wait
    }
}

/// Payload of the `preview-error` notification: the device and the
/// translated error text.
#[derive(Debug, Clone, PartialEq, Eq)]
pub struct PreviewErrorPayload {
    pub device_id: String,
    pub error: String,
}

impl PreviewErrorPayload {
    /// A payload whose error text is the user-facing form of `raw_error`.
    pub fn new(device_id: &str, raw_error: &str) -> (r: PreviewErrorPayload)
        ensures
            r.device_id@ == device_id@,
            r.error@ == crate::error::humanised(raw_error@),
    {
        PreviewErrorPayload { device_id: device_id.to_string(), error: crate::error::humanise_error(raw_error) }
    }
}

/// The message reported when no frame arrives in time.
pub open spec fn no_frames_message(frame_timeout_ms: u64) -> Seq<char> {
    "Camera produces no frames ("@ + dec_digits((frame_timeout_ms / 1000) as nat) + "s timeout)"@
}

/// Builds the message reported when no frame arrives in time.
pub fn no_frames_error(frame_timeout_ms: u64) -> (r: String)
    ensures
        r@ == no_frames_message(frame_timeout_ms),
{
    let mut s = String::new();
    push_str(&mut s, "Camera produces no frames (");
    push_dec(&mut s, frame_timeout_ms / 1000);
    push_str(&mut s, "s timeout)");
    assert(s@ =~= no_frames_message(frame_timeout_ms));
    s
}

} // verus!
