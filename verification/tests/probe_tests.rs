use video_player::probe::VideoInfo;

#[test]
fn probe_reports_duration_and_rate_in_plain_units() {
    let info = VideoInfo::from_raw(1280, 720, 5_000_000, 30000, 1001);
    assert_eq!(info.width, 1280);
    assert_eq!(info.height, 720);
    assert_eq!(info.duration_us, Some(5_000_000));
    assert_eq!(info.avg_fps_num, 30000);
    assert_eq!(info.avg_fps_den, 1001);
}

#[test]
fn probe_normalizes_undeclared_values() {
    let info = VideoInfo::from_raw(640, 480, 0, 25, 0);
    assert_eq!(info.duration_us, None);
    assert_eq!(info.avg_fps_num, 0);
    assert_eq!(info.avg_fps_den, 0);

    let info = VideoInfo::from_raw(640, 480, -3, 0, 1);
    assert_eq!(info.duration_us, None);
    assert_eq!(info.avg_fps_num, 0);
    assert_eq!(info.avg_fps_den, 0);
}
