use video_player::decode::{init_decode, DecodeAction, DecodeEvent, StreamInfo};
use video_player::frame::{PixelFormat, PlaybackParams};
use video_player::player::{PlayerError, VideoPlayer};

fn params() -> PlaybackParams {
    PlaybackParams { pixel_format: PixelFormat::RGB24, is_live: false }
}

#[test]
fn a_fresh_player_has_no_frame() {
    let mut player = VideoPlayer::new();
    assert!(player.get_latest_frame().is_none());
}

#[test]
fn starting_twice_fails_with_already_running() {
    let mut player = VideoPlayer::new();
    assert!(player.start_playback("file:sample", params()).is_ok());
    assert_eq!(
        player.start_playback("file:sample", params()),
        Err(PlayerError::AlreadyRunning)
    );
}

#[test]
fn stopping_allows_a_fresh_session() {
    let mut player = VideoPlayer::new();
    assert!(player.start_playback("file:sample", params()).is_ok());
    player.stop_playback();
    assert!(player.start_playback("file:sample", params()).is_ok());
}

#[test]
fn stopping_an_idle_player_is_harmless() {
    let mut player = VideoPlayer::new();
    player.stop_playback();
    assert!(player.get_latest_frame().is_none());
}

#[test]
fn a_failed_startup_releases_waiting_consumers() {
    let mut player = VideoPlayer::new();
    assert!(player.start_playback("file:absent", params()).is_ok());
    assert!(!player.playback_finished());
    player.abort_startup();
    assert!(player.playback_finished());
    assert!(player.get_latest_frame().is_none());
}

#[test]
fn the_controller_hands_out_the_freshest_frame() {
    let info = StreamInfo {
        video_stream_index: 0,
        width: 1,
        height: 1,
        tb_num: 1,
        tb_den: 1_000_000,
        fr_num: 0,
        fr_den: 0,
    };
    let mut player = VideoPlayer::new();
    assert!(player.start_playback("file:sample", params()).is_ok());

    let mut st = init_decode(&info, &params());
    let act = player.step_decode(&mut st, DecodeEvent::Unit { stream_index: 0 });
    assert!(matches!(act, DecodeAction::Feed { .. }));

    let push = |pts: i64| DecodeEvent::Picture {
        pts: Some(pts),
        converted: Some(vec![9u8; 3]),
        elapsed_us: 0,
    };
    let _ = player.step_decode(&mut st, push(70));
    let _ = player.step_decode(&mut st, push(90));

    let frame = player.get_latest_frame().expect("freshest frame");
    assert_eq!(frame.ts_us, 90);

    player.stop_playback();
    let act = player.step_decode(&mut st, DecodeEvent::Cancelled);
    assert_eq!(act, DecodeAction::Stop);
    assert!(player.get_latest_frame().is_none());
}

#[test]
fn restarting_resets_the_slot() {
    let info = StreamInfo {
        video_stream_index: 0,
        width: 1,
        height: 1,
        tb_num: 1,
        tb_den: 1_000_000,
        fr_num: 0,
        fr_den: 0,
    };
    let mut player = VideoPlayer::new();
    assert!(player.start_playback("file:sample", params()).is_ok());
    let mut st = init_decode(&info, &params());
    let _ = player.step_decode(
        &mut st,
        DecodeEvent::Picture { pts: Some(5), converted: Some(vec![1u8; 3]), elapsed_us: 0 },
    );
    player.stop_playback();
    assert!(player.start_playback("file:sample", params()).is_ok());
    assert!(player.get_latest_frame().is_none());
}

#[test]
fn playback_params_default_to_a_finite_rgb24_session() {
    let p = PlaybackParams::default();
    assert_eq!(p.pixel_format, PixelFormat::RGB24);
    assert!(!p.is_live);
}

#[test]
fn pixel_formats_know_their_size() {
    assert_eq!(PixelFormat::RGB8.bytes_per_pixel(), 1);
    assert_eq!(PixelFormat::RGB24.bytes_per_pixel(), 3);
}
