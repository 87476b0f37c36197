use video_player::decode::{
    init_decode, DecodeAction, DecodeError, DecodeEvent, DecodePhase, DecodeState, StreamInfo,
};
use video_player::frame::{PixelFormat, PlaybackParams};
use video_player::slot::FrameBuffer;
use video_player::timing::MIN_SLEEP_US;

fn sample_info() -> StreamInfo {
    StreamInfo {
        video_stream_index: 0,
        width: 2,
        height: 2,
        tb_num: 1,
        tb_den: 90000,
        fr_num: 25,
        fr_den: 1,
    }
}

fn sample_state() -> DecodeState {
    init_decode(
        &sample_info(),
        &PlaybackParams { pixel_format: PixelFormat::RGB24, is_live: false },
    )
}

fn picture(pts: i64, elapsed_us: u64) -> DecodeEvent {
    // 2 x 2 pixels at three bytes each.
    DecodeEvent::Picture { pts: Some(pts), converted: Some(vec![0u8; 12]), elapsed_us }
}

fn step(st: &mut DecodeState, slot: &mut FrameBuffer, ev: DecodeEvent) -> DecodeAction {
    video_player::decode::decode_step(st, slot, ev)
}

#[test]
fn init_fixes_geometry_pacing_and_phase() {
    let st = sample_state();
    assert_eq!(st.bytes_per_pixel, 3);
    assert_eq!(st.interval_us, 40_000);
    assert_eq!(st.units_read, 0);
    assert_eq!(st.phase, DecodePhase::Running);
}

#[test]
fn live_sources_are_not_paced() {
    let st = init_decode(
        &sample_info(),
        &PlaybackParams { pixel_format: PixelFormat::RGB8, is_live: true },
    );
    assert_eq!(st.bytes_per_pixel, 1);
    assert_eq!(st.interval_us, 0);
}

#[test]
fn units_of_other_streams_are_skipped() {
    let mut st = sample_state();
    let mut slot = FrameBuffer::new();
    let act = step(&mut st, &mut slot, DecodeEvent::Unit { stream_index: 3 });
    assert_eq!(act, DecodeAction::Skip { yield_first: false });
    assert!(slot.pull().is_none());
}

#[test]
fn video_units_are_fed_and_the_loop_yields_periodically() {
    let mut st = sample_state();
    let mut slot = FrameBuffer::new();
    for n in 1..=10u64 {
        let act = step(&mut st, &mut slot, DecodeEvent::Unit { stream_index: 0 });
        let expect_yield = n % 5 == 0;
        assert_eq!(act, DecodeAction::Feed { yield_first: expect_yield });
    }
    assert_eq!(st.units_read, 10);
}

#[test]
fn rejected_units_back_off_and_are_skipped() {
    let mut st = sample_state();
    let mut slot = FrameBuffer::new();
    let act = step(&mut st, &mut slot, DecodeEvent::UnitRejected);
    assert_eq!(act, DecodeAction::Backoff);
    assert_eq!(st.phase, DecodePhase::Running);
    assert!(slot.pull().is_none());
}

#[test]
fn pictures_become_timestamped_frames_with_pacing() {
    let mut st = sample_state();
    let mut slot = FrameBuffer::new();

    // 3600 ticks of 1/90000 are 40 ms; 12 ms already elapsed leaves 28 ms.
    let act = step(&mut st, &mut slot, picture(3600, 12_000));
    assert_eq!(act, DecodeAction::Sleep { sleep_us: 28_000 });

    let frame = slot.pull().expect("frame pushed");
    assert_eq!(frame.ts_us, 40_000);
    assert_eq!(frame.width, 2);
    assert_eq!(frame.height, 2);
    assert_eq!(frame.data.len(), 12);
}

#[test]
fn a_producer_behind_schedule_sleeps_minimally() {
    let mut st = sample_state();
    let mut slot = FrameBuffer::new();
    let act = step(&mut st, &mut slot, picture(3600, 50_000));
    assert_eq!(act, DecodeAction::Sleep { sleep_us: MIN_SLEEP_US });
}

#[test]
fn failed_conversions_drop_the_picture() {
    let mut st = sample_state();
    let mut slot = FrameBuffer::new();
    let act = step(
        &mut st,
        &mut slot,
        DecodeEvent::Picture { pts: Some(0), converted: None, elapsed_us: 0 },
    );
    assert_eq!(act, DecodeAction::DropPicture);
    assert!(slot.pull().is_none());
}

#[test]
fn ill_sized_conversions_drop_the_picture() {
    let mut st = sample_state();
    let mut slot = FrameBuffer::new();
    let act = step(
        &mut st,
        &mut slot,
        DecodeEvent::Picture { pts: Some(0), converted: Some(vec![0u8; 11]), elapsed_us: 0 },
    );
    assert_eq!(act, DecodeAction::DropPicture);
    assert!(slot.pull().is_none());
}

#[test]
fn finite_source_at_25_fps_runs_to_a_finished_slot() {
    // End-to-end: a finite source with a declared 25 fps rate produces
    // frames whose successive timestamps differ by 40 ms, and the slot
    // reaches its finished state after the last frame.
    let mut st = sample_state();
    let mut slot = FrameBuffer::new();

    let mut seen = Vec::new();
    for n in 0..4i64 {
        let act = step(&mut st, &mut slot, DecodeEvent::Unit { stream_index: 0 });
        assert!(matches!(act, DecodeAction::Feed { .. }));
        let act = step(&mut st, &mut slot, picture(n * 3600, 0));
        assert_eq!(act, DecodeAction::Sleep { sleep_us: 40_000 });
        seen.push(slot.consume().expect("frame pushed").ts_us);
    }
    assert_eq!(seen, vec![0, 40_000, 80_000, 120_000]);

    // End of input: flush without further pacing, then finish.
    let act = step(&mut st, &mut slot, DecodeEvent::EndOfInput);
    assert_eq!(act, DecodeAction::BeginFlush);
    assert_eq!(st.phase, DecodePhase::Flushing);

    let act = step(&mut st, &mut slot, picture(4 * 3600, 0));
    assert_eq!(act, DecodeAction::Sleep { sleep_us: 0 });
    assert_eq!(slot.consume().expect("flushed frame").ts_us, 160_000);

    let act = step(&mut st, &mut slot, DecodeEvent::Drained);
    assert_eq!(act, DecodeAction::Stop);
    assert_eq!(st.phase, DecodePhase::Done);

    // Finished: no frame, and every wait answers none at once.
    assert!(slot.is_finished());
    assert!(slot.pull().is_none());
    assert!(slot.get_next().is_none());
}

#[test]
fn cancellation_finishes_the_slot_promptly() {
    let mut st = sample_state();
    let mut slot = FrameBuffer::new();

    let _ = step(&mut st, &mut slot, DecodeEvent::Unit { stream_index: 0 });
    let _ = step(&mut st, &mut slot, picture(0, 0));
    assert!(slot.pull().is_some());

    // One step after the flag is seen: the slot is finished, the loop is
    // done, and nothing is pushed afterwards.
    let act = step(&mut st, &mut slot, DecodeEvent::Cancelled);
    assert_eq!(act, DecodeAction::Stop);
    assert_eq!(st.phase, DecodePhase::Done);
    assert!(slot.is_finished());
    assert!(slot.pull().is_none());
    assert!(slot.get_next().is_none());
}

#[test]
fn startup_errors_are_fatal_and_per_unit_errors_are_not() {
    assert!(DecodeError::SourceOpen.is_fatal());
    assert!(DecodeError::DecoderInit.is_fatal());
    assert!(!DecodeError::UnitDecode.is_fatal());
    assert!(!DecodeError::Conversion.is_fatal());
}
