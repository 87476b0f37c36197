use video_player::clock::{ClockDecision, PlaybackClock};

#[test]
fn first_frame_sets_baseline_and_presents_immediately() {
    let mut clock = PlaybackClock::new();
    let d = clock.on_frame(1_000, 5_000);
    assert_eq!(d, ClockDecision::PresentNow);
}

#[test]
fn frame_ahead_of_schedule_waits_for_its_target() {
    // First observed timestamp t0 at wall time w0; a frame 33 ms later in
    // stream time observed only 10 ms later in wall time must wait until
    // w0 + 33 ms.
    let t0 = 1_000_000;
    let w0 = 50_000_000;
    let mut clock = PlaybackClock::new();
    assert_eq!(clock.on_frame(t0, w0), ClockDecision::PresentNow);

    let d = clock.on_frame(t0 + 33_000, w0 + 10_000);
    assert_eq!(d, ClockDecision::WaitUntil { target_us: w0 + 33_000 });
}

#[test]
fn frame_behind_schedule_presents_immediately() {
    // A frame 5 s into the stream observed when the wall clock is already
    // 10 s past the baseline is behind schedule: its target lies in the
    // past, so it is presented at once.
    let t0 = 1_000_000;
    let w0 = 50_000_000;
    let mut clock = PlaybackClock::new();
    assert_eq!(clock.on_frame(t0, w0), ClockDecision::PresentNow);

    let d = clock.on_frame(t0 + 5_000_000, w0 + 10_000_000);
    assert_eq!(d, ClockDecision::PresentNow);
}

#[test]
fn target_exactly_now_presents_immediately() {
    let t0 = 0;
    let w0 = 1_000;
    let mut clock = PlaybackClock::new();
    clock.on_frame(t0, w0);
    // target == now is "on schedule": present, do not wait.
    let d = clock.on_frame(40_000, w0 + 40_000);
    assert_eq!(d, ClockDecision::PresentNow);
}

#[test]
fn baseline_stays_fixed_for_the_session() {
    let mut clock = PlaybackClock::new();
    clock.on_frame(1_000, 10_000);
    // If the second frame had re-based the clock, this third frame would
    // wait; against the original baseline it is behind schedule.
    clock.on_frame(2_000, 20_000);
    let d = clock.on_frame(3_000, 30_000);
    assert_eq!(d, ClockDecision::PresentNow);
}

#[test]
fn timestamp_before_baseline_clamps_to_baseline_instant() {
    let mut clock = PlaybackClock::new();
    clock.on_frame(10_000, 50_000);
    // A regressed timestamp targets the baseline instant itself, which is
    // in the past: present immediately.
    let d = clock.on_frame(9_000, 50_001);
    assert_eq!(d, ClockDecision::PresentNow);
}

#[test]
fn unrepresentable_target_clamps_to_the_largest_instant() {
    let mut clock = PlaybackClock::new();
    clock.on_frame(0, u64::MAX - 10);
    let d = clock.on_frame(1_000_000, u64::MAX - 5);
    assert_eq!(d, ClockDecision::WaitUntil { target_us: u64::MAX });
}
