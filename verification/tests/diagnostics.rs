use camlet::appearance::OverlayShape;
use camlet::camera::VideoFrame;
use camlet::diagnostics::{diagnostics_document, diagnostics_json, diagnostics_report, RuntimeFacts};
use camlet::json::JsonValue;
use camlet::presentation::{DisplayEnvironment, Platform};
use camlet::profile::NativeProfile;
use camlet::settings::{AppSettings, CameraResolution};
use camlet::state::{AppState, CameraOption, CameraStatus};
use camlet::FrameSourceKind;

fn test_state() -> AppState {
    let mut state = AppState::new(AppSettings::default());
    state.cameras = vec![CameraOption {
        id: "synthetic".to_owned(),
        label: "Camlet synthetic camera".to_owned(),
    }];
    state.active_camera_id = Some("synthetic".to_owned());
    state
}

fn test_profile(settings_path: Option<&str>) -> NativeProfile {
    NativeProfile {
        settings: AppSettings::default(),
        settings_path: settings_path.map(str::to_owned),
        writable: false,
        origin: "test",
    }
}

fn linux_x11() -> RuntimeFacts {
    RuntimeFacts {
        version: "0.2.0".to_owned(),
        platform: "linux".to_owned(),
        architecture: "x86_64".to_owned(),
        display: DisplayEnvironment {
            platform: Platform::Linux,
            wayland_requested: false,
            x11_relaunched: false,
            wayland_display: false,
            wayland_socket: false,
            x_display: true,
        },
    }
}

fn summary(
    state: &AppState,
    profile: &NativeProfile,
    frame: Option<&VideoFrame>,
    measured_fps_tenths: Option<u64>,
) -> String {
    let report = diagnostics_report(state, profile, FrameSourceKind::Synthetic, frame, None);
    String::from_utf8(diagnostics_json(&report, &linux_x11(), measured_fps_tenths))
        .expect("the summary is UTF-8")
}

#[test]
fn diagnostics_exclude_paths_camera_ids_and_frame_pixels() {
    let mut state = test_state();
    state.settings.selected_camera_device_id = Some("private-camera-id".to_owned());
    let profile = test_profile(Some("/private/home/user/settings.json"));
    let frame = VideoFrame {
        width: 1,
        height: 1,
        sequence: 99,
        rgba: vec![11, 22, 33, 44],
    };

    let diagnostics = summary(&state, &profile, Some(&frame), None);
    assert!(!diagnostics.contains("private-camera-id"));
    assert!(!diagnostics.contains("/private/home"));
    assert!(!diagnostics.contains("rgba"));
    assert!(!diagnostics.contains("sequence"));
    assert!(diagnostics.contains("\"schemaVersion\": 1"));
    assert!(serde_json::from_str::<serde_json::Value>(&diagnostics).is_ok());
}

#[test]
fn diagnostics_summary_is_written_in_section_order() {
    let state = test_state();
    let profile = test_profile(None);
    let expected = r#"{
  "schemaVersion": 1,
  "application": {
    "name": "Camlet",
    "version": "0.2.0",
    "runtime": "Rust + Iced 0.14",
    "platform": "linux",
    "architecture": "x86_64",
    "displayProtocol": "x11",
    "releaseChannel": "stable"
  },
  "profile": {
    "origin": "test",
    "writable": false
  },
  "camera": {
    "source": "synthetic",
    "status": "loading",
    "requestedFps": 30,
    "requestedResolution": "640 × 480",
    "activeResolution": null,
    "measuredFps": null,
    "deviceCount": 1,
    "activeDevicePresent": true,
    "droppedFrames": 0
  },
  "appearance": {
    "shape": "original",
    "size": 224,
    "fit": "cover",
    "ringThickness": 4,
    "cornerRoundness": 26
  }
}"#;
    assert_eq!(summary(&state, &profile, None, None), expected);
}

#[test]
fn measured_rate_and_frame_size_are_spelled_like_numbers_and_labels() {
    let mut state = test_state();
    state.camera_status = CameraStatus::Preview;
    state.settings.camera_resolution = CameraResolution::R1280x720;
    state.settings.appearance.shape = OverlayShape::RoundedSquare;
    let frame = VideoFrame {
        width: 1280,
        height: 720,
        sequence: 7,
        rgba: Vec::new(),
    };
    let text = summary(&state, &test_profile(None), Some(&frame), Some(299));
    assert!(text.contains("\"measuredFps\": 29.9,"));
    assert!(text.contains("\"activeResolution\": \"1280 × 720\","));
    assert!(text.contains("\"requestedResolution\": \"1280 × 720\","));
    assert!(text.contains("\"status\": \"preview\","));
    assert!(text.contains("\"shape\": \"rounded-square\","));

    let whole = summary(&state, &test_profile(None), Some(&frame), Some(300));
    assert!(whole.contains("\"measuredFps\": 30.0,"));
    let slow = summary(&state, &test_profile(None), Some(&frame), Some(5));
    assert!(slow.contains("\"measuredFps\": 0.5,"));
}

#[test]
fn dropped_frames_and_writability_come_from_the_session() {
    let state = test_state();
    let mut profile = test_profile(None);
    profile.writable = true;
    profile.origin = "native";
    let report = diagnostics_report(&state, &profile, FrameSourceKind::Real, None, Some(12));
    assert_eq!(report.dropped_frames, 12);
    assert!(report.profile_writable);
    assert_eq!(report.profile_origin, "native");
    assert_eq!(report.device_count, 1);
    assert!(report.active_device_present);
    let text = String::from_utf8(diagnostics_json(&report, &linux_x11(), None)).unwrap();
    assert!(text.contains("\"droppedFrames\": 12"));
    assert!(text.contains("\"writable\": true"));
    assert!(text.contains("\"source\": \"real\""));
}

#[test]
fn sessions_differing_only_in_private_data_give_the_same_summary() {
    let mut first = test_state();
    first.settings.selected_camera_device_id = Some("private-camera-id".to_owned());
    let mut second = test_state();
    second.cameras[0].id = "another-device".to_owned();
    second.cameras[0].label = "Another camera".to_owned();
    second.active_camera_id = Some("another-device".to_owned());
    let first_frame = VideoFrame {
        width: 2,
        height: 1,
        sequence: 1,
        rgba: vec![1, 2, 3, 4, 5, 6, 7, 8],
    };
    let second_frame = VideoFrame {
        width: 2,
        height: 1,
        sequence: 500,
        rgba: vec![9, 9, 9, 9, 9, 9, 9, 9],
    };
    assert_eq!(
        summary(&first, &test_profile(Some("/home/a/settings.json")), Some(&first_frame), Some(150)),
        summary(&second, &test_profile(None), Some(&second_frame), Some(150)),
    );
}

#[test]
fn prerelease_versions_are_reported_on_the_prerelease_channel() {
    let state = test_state();
    let report = diagnostics_report(&state, &test_profile(None), FrameSourceKind::Synthetic, None, None);
    let mut runtime = linux_x11();
    runtime.version = "0.3.0-beta.1".to_owned();
    runtime.display.wayland_display = true;
    let document = diagnostics_document(&report, &runtime, None);
    let JsonValue::Object(members) = &document else {
        panic!("the summary is an object");
    };
    let JsonValue::Object(application) = &members[1].1 else {
        panic!("the application section is an object");
    };
    assert_eq!(application[6].1, JsonValue::Text("prerelease".to_owned()));
    assert_eq!(application[5].1, JsonValue::Text("wayland".to_owned()));
}
