use camlet::backend::{find_device_index, needs_device_refresh, start_request_valid};
use camlet::backend::{
    cache_camera_devices, choose_camera_format, classify_backend_message,
    classify_lowercase_message, camera_error_code, frame_format_preference, requested_fps,
    stable_device_id, tolerate_transient_frame_error, udev_capture_capability, CameraFormat,
    CameraIndex, CameraInfo, FrameFormat,
};
use camlet::camera::{
    retry_camera_start, should_retry_start, CameraDevice, CameraError, CaptureRequest,
    FrameSource, ScriptedFrameSource, SyntheticFrameSource, VideoFrame,
};

fn request() -> CaptureRequest {
    CaptureRequest {
        width: 64,
        height: 48,
        frame_interval_nanos: 33_000_000,
    }
}

fn format(width: u32, height: u32, format: FrameFormat, frame_rate: u32) -> CameraFormat {
    CameraFormat {
        width,
        height,
        format,
        frame_rate,
    }
}

#[test]
fn synthetic_source_never_needs_hardware() {
    let mut source = SyntheticFrameSource::default();
    let devices = source
        .devices()
        .unwrap_or_else(|error| unreachable!("{error:?}"));
    assert_eq!(devices.len(), 1);
    assert_eq!(devices[0].id, SyntheticFrameSource::DEVICE_ID);
    source
        .start(Some(SyntheticFrameSource::DEVICE_ID), request())
        .unwrap_or_else(|error| unreachable!("{error:?}"));
    let frame = source
        .latest_frame()
        .unwrap_or_else(|error| unreachable!("{error:?}"))
        .unwrap_or_else(|| unreachable!());
    assert_eq!((frame.width, frame.height, frame.sequence), (64, 48, 0));
    assert_eq!(frame.rgba.len(), 64 * 48 * 4);
}

#[test]
fn synthetic_animation_changes_only_the_bounded_marker() {
    let mut source = SyntheticFrameSource::default();
    source
        .start(None, request())
        .unwrap_or_else(|error| unreachable!("{error:?}"));
    let first = source
        .latest_frame()
        .unwrap_or_else(|error| unreachable!("{error:?}"))
        .unwrap_or_else(|| unreachable!());
    let second = source
        .latest_frame()
        .unwrap_or_else(|error| unreachable!("{error:?}"))
        .unwrap_or_else(|| unreachable!());

    let changed_pixels = first
        .rgba
        .chunks_exact(4)
        .zip(second.rgba.chunks_exact(4))
        .filter(|(first, second)| first != second)
        .count();
    assert_eq!((first.sequence, second.sequence), (0, 1));
    assert!((1..=16 * 8).contains(&changed_pixels));
}

#[test]
fn latest_frame_buffer_has_capacity_one() {
    let mut source = SyntheticFrameSource::default();
    source
        .start(None, request())
        .unwrap_or_else(|error| unreachable!("{error:?}"));
    for _ in 0..100 {
        source
            .advance()
            .unwrap_or_else(|error| unreachable!("{error:?}"));
    }
    let frame = source
        .latest_frame()
        .unwrap_or_else(|error| unreachable!("{error:?}"))
        .unwrap_or_else(|| unreachable!());
    assert_eq!(frame.sequence, 100);
    assert_eq!(
        source
            .latest_frame()
            .map(|frame| frame.map(|frame| frame.sequence)),
        Ok(Some(101))
    );
}

#[test]
fn stop_releases_and_clears_pending_frame() {
    let mut source = SyntheticFrameSource::default();
    source
        .start(None, request())
        .unwrap_or_else(|error| unreachable!("{error:?}"));
    source.stop();
    assert_eq!(source.latest_frame(), Ok(None));
    assert!(source.advance().is_err());
}

#[test]
fn scripted_source_exercises_failures_and_release() {
    let mut source = ScriptedFrameSource::new(vec![CameraDevice {
        id: "test-1".to_owned(),
        label: "Test camera".to_owned(),
    }]);
    source.fail_next_start(CameraError::Busy);
    assert_eq!(
        source.start(Some("test-1"), request()),
        Err(CameraError::Busy)
    );
    assert!(source.start(Some("test-1"), request()).is_ok());
    source.push_frame(VideoFrame {
        width: 2,
        height: 2,
        sequence: 7,
        rgba: vec![0; 16],
    });
    assert_eq!(
        source
            .latest_frame()
            .map(|frame| frame.map(|frame| frame.sequence)),
        Ok(Some(7))
    );
    source.stop();
    assert_eq!(source.stop_count(), 1);
    assert_eq!(source.latest_frame(), Ok(None));
}

#[test]
fn scripted_source_replaces_pending_frames() {
    let mut source = ScriptedFrameSource::default();
    assert!(source.start(None, request()).is_ok());
    for sequence in 0..10 {
        source.push_frame(VideoFrame {
            width: 1,
            height: 1,
            sequence,
            rgba: vec![0; 4],
        });
    }
    assert_eq!(
        source
            .latest_frame()
            .map(|frame| frame.map(|frame| frame.sequence)),
        Ok(Some(9))
    );
    assert_eq!(source.latest_frame(), Ok(None));
}

#[test]
fn scripted_source_reports_a_configured_enumeration_failure() {
    let mut source = ScriptedFrameSource::new(Vec::new());
    source.set_devices_error(Some(CameraError::PermissionDenied));
    assert_eq!(source.devices(), Err(CameraError::PermissionDenied));
    source.set_devices_error(None);
    assert_eq!(source.devices(), Ok(Vec::new()));
    assert_eq!(
        source.start(Some("absent"), request()),
        Err(CameraError::DeviceNotFound)
    );
}

#[test]
fn format_negotiation_prefers_requested_geometry() {
    let formats = vec![
        format(320, 240, FrameFormat::MJPEG, 30),
        format(640, 480, FrameFormat::YUYV, 60),
        format(1_280, 720, FrameFormat::NV12, 30),
    ];
    let selected = choose_camera_format(&formats, request()).unwrap_or_else(|| unreachable!());
    assert_eq!((selected.width, selected.height), (320, 240));

    let selected = choose_camera_format(
        &formats,
        CaptureRequest {
            width: 640,
            height: 480,
            frame_interval_nanos: 17_000_000,
        },
    )
    .unwrap_or_else(|| unreachable!());
    assert_eq!((selected.width, selected.height), (640, 480));
}

#[test]
fn format_negotiation_honors_requested_resolution_before_fps() {
    let formats = vec![
        format(640, 480, FrameFormat::YUYV, 30),
        format(320, 240, FrameFormat::MJPEG, 60),
    ];
    let selected = choose_camera_format(
        &formats,
        CaptureRequest {
            width: 640,
            height: 480,
            frame_interval_nanos: 1_000_000_000 / 60,
        },
    )
    .unwrap_or_else(|| unreachable!());

    assert_eq!((selected.width, selected.height), (640, 480));
    assert_eq!(selected.frame_rate, 30);
}

#[test]
fn format_negotiation_skips_grayscale_and_breaks_ties_by_encoding() {
    let formats = vec![
        format(64, 48, FrameFormat::GRAY, 30),
        format(64, 48, FrameFormat::MJPEG, 30),
        format(64, 48, FrameFormat::NV12, 30),
        format(64, 48, FrameFormat::NV12, 30),
    ];
    let selected = choose_camera_format(&formats, request()).unwrap_or_else(|| unreachable!());
    assert_eq!(selected.format, FrameFormat::NV12);
    assert_eq!(
        choose_camera_format(&vec![format(64, 48, FrameFormat::GRAY, 30)], request()),
        None
    );
    assert_eq!(choose_camera_format(&Vec::new(), request()), None);
    assert_eq!(frame_format_preference(FrameFormat::GRAY), 4);
}

#[test]
fn requested_frame_rate_is_clamped() {
    assert_eq!(requested_fps(request()), 30);
    assert_eq!(
        requested_fps(CaptureRequest {
            frame_interval_nanos: 1,
            ..request()
        }),
        240
    );
    assert_eq!(
        requested_fps(CaptureRequest {
            frame_interval_nanos: 5_000_000_000,
            ..request()
        }),
        1
    );
}

#[test]
fn enumerated_device_ids_reopen_with_the_original_backend_index() {
    let devices = cache_camera_devices(
        &vec![
            CameraInfo::new("", "", "", CameraIndex::Index(11)),
            CameraInfo::new("USB camera", "", "persistent-id", CameraIndex::Index(7)),
        ],
        &vec![true, true],
    );

    assert_eq!(devices[0].public.id, "persistent-id");
    assert_eq!(devices[0].index, CameraIndex::Index(7));
    assert_eq!(devices[1].public.id, "11");
    assert_eq!(devices[1].public.label, "Camera 2");
    assert_eq!(devices[1].index, CameraIndex::Index(11));
}

#[test]
fn inventory_drops_non_capture_nodes_and_orders_strings_after_numbers() {
    let devices = cache_camera_devices(
        &vec![
            CameraInfo::new("Network", "", "", CameraIndex::String("rtsp://b".to_owned())),
            CameraInfo::new("Metadata node", "", "", CameraIndex::Index(1)),
            CameraInfo::new(" ", "", "  ", CameraIndex::String("rtsp://a".to_owned())),
            CameraInfo::new("Built-in", "", "builtin", CameraIndex::Index(0)),
        ],
        &vec![true, false, true, true],
    );
    let ids: Vec<&str> = devices.iter().map(|device| device.public.id.as_str()).collect();
    assert_eq!(ids, vec!["builtin", "rtsp://a", "rtsp://b"]);
    assert_eq!(devices[1].public.label, "Camera 2");
    assert_eq!(devices[2].public.label, "Network");
    assert_eq!(
        stable_device_id(&CameraInfo::new("", "", "", CameraIndex::Index(4_294_967_295))),
        "4294967295"
    );
}

#[test]
fn linux_inventory_excludes_nodes_without_capture_capability() {
    assert_eq!(
        udev_capture_capability("E:ID_V4L_CAPABILITIES=:capture:\n"),
        Some(true)
    );
    assert_eq!(
        udev_capture_capability("E:ID_V4L_CAPABILITIES=:\n"),
        Some(false)
    );
    assert_eq!(udev_capture_capability("E:OTHER=value\n"), None);
}

#[test]
fn udev_capabilities_use_the_first_line_that_starts_with_the_key() {
    assert_eq!(
        udev_capture_capability("S:x E:ID_V4L_CAPABILITIES=:capture:\nE:ID_V4L_CAPABILITIES=:video_output:\n"),
        Some(false)
    );
    assert_eq!(
        udev_capture_capability("E:ID_V4L_CAPABILITIES=:capture_mplane:\r\n"),
        Some(true)
    );
    assert_eq!(udev_capture_capability(""), None);
}

#[test]
fn backend_errors_map_without_exposing_identifiers() {
    assert_eq!(
        classify_backend_message("Could not open device stream: Device or resource busy"),
        CameraError::Busy
    );
    assert_eq!(
        classify_backend_message("Could not open device private-id: not found"),
        CameraError::DeviceNotFound
    );
}

#[test]
fn backend_message_categories_follow_their_priority() {
    assert_eq!(
        classify_backend_message("ACCESS DENIED while busy"),
        CameraError::PermissionDenied
    );
    assert_eq!(
        classify_lowercase_message("resource temporarily unavailable"),
        CameraError::Busy
    );
    assert_eq!(classify_lowercase_message("No Device"), CameraError::Backend);
    assert_eq!(classify_backend_message("No Device"), CameraError::DeviceNotFound);
    assert_eq!(classify_backend_message("something else"), CameraError::Backend);
    assert_eq!(camera_error_code(CameraError::DeviceNotFound), "device-not-found");
}

#[test]
fn transient_camera_start_failures_are_retried_but_permissions_are_not() {
    let mut attempts = 0_u8;
    let mut waits = 0_u8;
    let recovered = retry_camera_start(
        || {
            attempts = attempts.saturating_add(1);
            if attempts < 3 {
                Err(CameraError::Backend)
            } else {
                Ok("preview")
            }
        },
        || waits = waits.saturating_add(1),
    );
    assert_eq!(recovered, Ok("preview"));
    assert_eq!((attempts, waits), (3, 2));

    attempts = 0;
    waits = 0;
    let denied = retry_camera_start(
        || {
            attempts = attempts.saturating_add(1);
            Err::<(), _>(CameraError::PermissionDenied)
        },
        || waits = waits.saturating_add(1),
    );
    assert_eq!(denied, Err(CameraError::PermissionDenied));
    assert_eq!((attempts, waits), (1, 0));
}

#[test]
fn camera_start_gives_up_after_five_busy_attempts() {
    let mut attempts = 0_u8;
    let result = retry_camera_start(
        || {
            attempts += 1;
            Err::<(), _>(CameraError::Busy)
        },
        || {},
    );
    assert_eq!(result, Err(CameraError::Busy));
    assert_eq!(attempts, 5);
    assert!(should_retry_start(4, CameraError::Backend));
    assert!(!should_retry_start(5, CameraError::Backend));
    assert!(!should_retry_start(1, CameraError::DeviceNotFound));
}

#[test]
fn isolated_frame_errors_do_not_destroy_a_healthy_stream() {
    let mut consecutive_errors = 0;
    for _ in 0..3 {
        assert_eq!(
            tolerate_transient_frame_error(&mut consecutive_errors, CameraError::Backend),
            Ok(())
        );
    }
    assert_eq!(consecutive_errors, 3);
    assert_eq!(
        tolerate_transient_frame_error(&mut consecutive_errors, CameraError::Backend),
        Err(CameraError::Backend)
    );

    consecutive_errors = 0;
    assert_eq!(
        tolerate_transient_frame_error(&mut consecutive_errors, CameraError::PermissionDenied),
        Err(CameraError::PermissionDenied)
    );
    assert_eq!(consecutive_errors, 0);
}

#[test]
fn stopping_without_a_live_handle_still_clears_camera_identity() {
    let mut stream = camlet::backend::StreamState {
        active_index: Some(CameraIndex::Index(7)),
        next_sequence: 42,
        consecutive_frame_errors: 2,
    };

    stream.stop();

    assert_eq!(stream.active_index, None);
    assert_eq!(stream.next_sequence, 0);
    assert_eq!(stream.consecutive_frame_errors, 0);
}

#[test]
fn stream_state_counts_frames_and_recognises_restarts() {
    let mut stream = camlet::backend::StreamState::new();
    stream.started(CameraIndex::String("rtsp://cam".to_owned()));
    assert!(stream.is_restart(&CameraIndex::String("rtsp://cam".to_owned()), true));
    assert!(!stream.is_restart(&CameraIndex::String("rtsp://cam".to_owned()), false));
    assert!(!stream.is_restart(&CameraIndex::Index(0), true));
    assert_eq!(stream.frame_delivered(), 0);
    assert_eq!(stream.frame_delivered(), 1);
    assert_eq!(stream.frame_failed(CameraError::Busy), Ok(()));
    assert_eq!(stream.frame_delivered(), 2);
    assert_eq!(stream.consecutive_frame_errors, 0);
    assert_eq!(
        stream.frame_failed(CameraError::DeviceNotFound),
        Err(CameraError::DeviceNotFound)
    );
    stream.begin_restart();
    assert_eq!((stream.active_index.clone(), stream.next_sequence), (None, 0));
}

#[test]
fn device_resolution_refreshes_only_when_needed() {
    let devices = cache_camera_devices(
        &vec![
            CameraInfo::new("A", "", "a-id", CameraIndex::Index(3)),
            CameraInfo::new("B", "", "b-id", CameraIndex::Index(5)),
        ],
        &vec![true, true],
    );
    assert!(needs_device_refresh(&Vec::new(), None));
    assert!(!needs_device_refresh(&devices, None));
    assert!(!needs_device_refresh(&devices, Some("b-id")));
    assert!(needs_device_refresh(&devices, Some("c-id")));
    assert_eq!(find_device_index(&devices, None), Ok(CameraIndex::Index(3)));
    assert_eq!(find_device_index(&devices, Some("b-id")), Ok(CameraIndex::Index(5)));
    assert_eq!(
        find_device_index(&devices, Some("c-id")),
        Err(CameraError::DeviceNotFound)
    );
    assert_eq!(find_device_index(&Vec::new(), None), Err(CameraError::DeviceNotFound));
    assert!(start_request_valid(request()));
    assert!(!start_request_valid(CaptureRequest {
        frame_interval_nanos: 0,
        ..request()
    }));
}
