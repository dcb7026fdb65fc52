use camctl::frames::{
    handle_sample, no_frames_error, watchdog_step, Frame, FrameBuffer, PixelSubtype, SampleOutcome,
    WatchdogAction, WatchdogConfig, WatchdogState,
};
use camctl::stats::DiagnosticStats;

fn make_frame(value: u8, timestamp: u64) -> Frame {
    Frame { data: vec![value; 100], width: 10, height: 10, timestamp_us: timestamp }
}

#[test]
fn frame_buffer_returns_none_when_empty() {
    let buf = FrameBuffer::new(3);
    assert!(buf.latest().is_none());
    assert_eq!(buf.sequence(), 0);
}

#[test]
fn frame_buffer_stores_and_retrieves_latest() {
    let mut buf = FrameBuffer::new(3);
    buf.push(make_frame(1, 100));
    buf.push(make_frame(2, 200));
    let latest = buf.latest().unwrap();
    assert_eq!(latest.data[0], 2);
    assert_eq!(latest.timestamp_us, 200);
}

#[test]
fn frame_buffer_overwrites_oldest_when_full() {
    let mut buf = FrameBuffer::new(3);
    buf.push(make_frame(1, 100));
    buf.push(make_frame(2, 200));
    buf.push(make_frame(3, 300));
    buf.push(make_frame(4, 400));
    let latest = buf.latest().unwrap();
    assert_eq!(latest.data[0], 4);
    assert_eq!(latest.timestamp_us, 400);
}

#[test]
fn frame_buffer_latest_returns_arc_not_clone() {
    let mut buf = FrameBuffer::new(3);
    buf.push(make_frame(42, 100));
    let a = buf.latest().unwrap();
    let b = buf.latest().unwrap();
    assert!(std::ptr::eq(a, b));
    assert_eq!(a.data[0], 42);
}

#[test]
fn sequence_counts_pushes_across_wraparound() {
    for cap in [1usize, 2, 3, 5] {
        let mut buf = FrameBuffer::new(cap);
        for k in 1..=7u64 {
            buf.push(make_frame(k as u8, 0));
            assert_eq!(buf.sequence(), k);
            assert_eq!(buf.latest().unwrap().data[0], k as u8);
        }
    }
}

#[test]
fn zero_capacity_buffer_is_always_empty() {
    let buf = FrameBuffer::new(0);
    assert!(buf.latest().is_none());
}

fn fast_watchdog() -> WatchdogConfig {
    WatchdogConfig { startup_timeout_ms: 50, frame_timeout_ms: 50, poll_interval_ms: 10 }
}

/// Drives the watchdog from time 0 in poll steps until it stops, returning
/// the final action and how often it failed.
fn drive(config: WatchdogConfig, running: bool, shutdown: bool, sequence: u64) -> (WatchdogAction, u32) {
    let mut state = WatchdogState::Starting { since_ms: 0 };
    let mut now = 0u64;
    let mut fails = 0;
    loop {
        let (next, action) = watchdog_step(config, state, now, shutdown, running, sequence);
        state = next;
        match action {
            WatchdogAction::Wait => now += config.poll_interval_ms,
            WatchdogAction::Fail => {
                fails += 1;
                return (action, fails);
            },
            WatchdogAction::Exit => return (action, fails),
        }
    }
}

#[test]
fn watchdog_does_not_fire_when_frames_arrive() {
    assert_eq!(drive(fast_watchdog(), true, false, 1), (WatchdogAction::Exit, 0));
}

#[test]
fn watchdog_fires_when_no_frames_arrive() {
    assert_eq!(drive(fast_watchdog(), true, false, 0), (WatchdogAction::Fail, 1));
    assert!(no_frames_error(5_000).contains("no frames"));
}

#[test]
fn watchdog_exits_early_when_shutdown_signalled() {
    assert_eq!(drive(fast_watchdog(), true, true, 0), (WatchdogAction::Exit, 0));
}

#[test]
fn watchdog_exits_if_graph_never_starts() {
    assert_eq!(drive(fast_watchdog(), false, false, 0), (WatchdogAction::Exit, 0));
}

#[test]
fn watchdog_fires_on_no_frames_after_first_frame_timeout() {
    let config = WatchdogConfig::standard();
    let start = WatchdogState::Starting { since_ms: 0 };
    let (state, action) = watchdog_step(config, start, 100, false, true, 0);
    assert_eq!(state, WatchdogState::AwaitingFrame { deadline_ms: 5_100 });
    assert_eq!(action, WatchdogAction::Wait);
    assert_eq!(watchdog_step(config, state, 5_099, false, true, 0).1, WatchdogAction::Wait);
    assert_eq!(watchdog_step(config, state, 5_100, false, true, 0).1, WatchdogAction::Fail);
    assert_eq!(watchdog_step(config, state, 5_100, false, false, 0).1, WatchdogAction::Exit);
    assert_eq!(no_frames_error(config.frame_timeout_ms), "Camera produces no frames (5s timeout)");
    let (_, startup) = watchdog_step(config, start, 30_000, false, false, 0);
    assert_eq!(startup, WatchdogAction::Exit);
    let (_, early) = watchdog_step(config, start, 29_999, false, false, 0);
    assert_eq!(early, WatchdogAction::Wait);
}

#[test]
fn samples_are_converted_dropped_or_ignored() {
    let mut buffer = FrameBuffer::new(3);
    let mut stats = DiagnosticStats::new(0);
    let yuy2 = [128u8, 128, 128, 128];
    assert_eq!(
        handle_sample(&mut buffer, &mut stats, false, PixelSubtype::Yuy2, &yuy2, 2, 1, 5, 10),
        SampleOutcome::Ignored
    );
    assert_eq!(buffer.sequence(), 0);
    assert_eq!(
        handle_sample(&mut buffer, &mut stats, true, PixelSubtype::Yuy2, &yuy2[..3], 2, 1, 5, 10),
        SampleOutcome::Dropped
    );
    assert_eq!(
        handle_sample(&mut buffer, &mut stats, true, PixelSubtype::Other, &yuy2, 2, 1, 5, 10),
        SampleOutcome::Dropped
    );
    assert_eq!(
        handle_sample(&mut buffer, &mut stats, true, PixelSubtype::Nv12, &[0u8; 6], 3, 1, 5, 10),
        SampleOutcome::Dropped
    );
    assert_eq!(stats.drop_count, 3);
    assert_eq!(
        handle_sample(&mut buffer, &mut stats, true, PixelSubtype::Yuy2, &yuy2, 2, 1, 5, 10),
        SampleOutcome::Delivered
    );
    assert_eq!(buffer.sequence(), 1);
    let f = buffer.latest().unwrap();
    assert_eq!(f.data, vec![128u8; 6]);
    assert_eq!((f.width, f.height, f.timestamp_us), (2, 1, 5));
    assert_eq!(stats.frame_count, 1);
    assert_eq!(stats.total_bytes, 6);
    assert_eq!(
        handle_sample(&mut buffer, &mut stats, true, PixelSubtype::Rgb24, &[1, 2, 3], 1, 1, 6, 10),
        SampleOutcome::Delivered
    );
    assert_eq!(buffer.latest().unwrap().data, vec![3, 2, 1]);
}
