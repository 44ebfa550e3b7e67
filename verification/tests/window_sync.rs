use camlet::settings::{AppSettings, CameraResolution};
use camlet::window_sync::{camera_request, record_position, record_size, WindowSync};

#[test]
fn stale_programmatic_window_feedback_cannot_undo_newer_keyboard_input() {
    let mut settings = AppSettings::default();
    let initial_x = settings.window.x;
    let initial_y = settings.window.y;
    let mut sync = WindowSync::new();

    sync.expect_position(initial_x + 1, initial_y);
    sync.expect_position(initial_x + 2, initial_y);
    settings.window.x = initial_x + 2;
    assert!(!sync.position_reported((initial_x + 1, initial_y)));
    assert_eq!(settings.window.x, initial_x + 2);
    assert_eq!(sync.pending_position, Some((initial_x + 2, initial_y)));
    assert!(!sync.position_reported((initial_x + 2, initial_y)));
    assert_eq!(sync.pending_position, None);

    assert!(sync.position_reported((10, 20)));
    record_position(&mut settings, 10, 20);
    assert_eq!((settings.window.x, settings.window.y), (10, 20));
}

#[test]
fn reported_sizes_are_recorded_within_bounds() {
    let mut sync = WindowSync::new();
    sync.expect_size(300);
    assert!(!sync.size_reported(299));
    assert!(!sync.size_reported(300));
    assert!(sync.size_reported(500));

    let mut settings = AppSettings::default();
    record_size(&mut settings, 900, 800);
    assert_eq!((settings.window.width, settings.window.height), (800, 800));
    assert_eq!(settings.appearance.size, 640);
    record_size(&mut settings, 10, 800);
    assert_eq!(settings.window.width, 176);
    assert_eq!(settings.appearance.size, 176);
}

#[test]
fn camera_request_follows_the_selected_mode() {
    let settings = AppSettings {
        camera_fps: 60,
        camera_resolution: CameraResolution::R1280x720,
        ..AppSettings::default()
    };
    let request = camera_request(&settings);
    assert_eq!((request.width, request.height), (1280, 720));
    assert_eq!(request.frame_interval_nanos, 16_666_666);
}
