use camlet::appearance::{
    OverlayShape, PreviewFitMode, ThemeId, CORNER_ROUNDNESS_OPTIONS, RING_THICKNESS_OPTIONS,
};
use camlet::language::AppLanguage;
use camlet::settings::{AppSettings, CameraResolution, CAMERA_FPS_OPTIONS, CAMERA_RESOLUTION_OPTIONS};
use camlet::state::{Action, AppState, CameraOption, CameraStatus, Effect};

#[test]
fn first_device_is_selected_when_saved_device_disappears() {
    let settings = AppSettings {
        selected_camera_device_id: Some("missing".to_owned()),
        ..AppSettings::default()
    };
    let mut state = AppState::new(settings);
    let effects = state.update(Action::DevicesChanged(vec![CameraOption {
        id: "first".to_owned(),
        label: "Camera 1".to_owned(),
    }]));

    assert_eq!(state.active_camera_id.as_deref(), Some("first"));
    assert_eq!(
        effects,
        vec![
            Effect::PersistSettings,
            Effect::StartCamera("first".to_owned())
        ]
    );
}

#[test]
fn empty_devices_preserve_saved_selection_for_future_reconnect() {
    let settings = AppSettings {
        selected_camera_device_id: Some("saved".to_owned()),
        ..AppSettings::default()
    };
    let mut state = AppState::new(settings);
    assert_eq!(
        state.update(Action::DevicesChanged(Vec::new())),
        vec![Effect::StopCamera]
    );
    assert_eq!(state.camera_status, CameraStatus::SelectedDeviceUnavailable);
    assert_eq!(
        state.settings.selected_camera_device_id.as_deref(),
        Some("saved")
    );
}

#[test]
fn unchanged_periodic_enumeration_does_not_restart_preview() {
    let mut state = AppState::new(AppSettings::default());
    let cameras = vec![CameraOption {
        id: "stable".to_owned(),
        label: "Stable Camera".to_owned(),
    }];
    assert!(state
        .update(Action::DevicesChanged(cameras.clone()))
        .contains(&Effect::StartCamera("stable".to_owned())));
    let _ = state.update(Action::CameraReady);

    assert!(state.update(Action::DevicesChanged(cameras)).is_empty());
    assert_eq!(state.camera_status, CameraStatus::Preview);
}

#[test]
fn camera_failures_and_retry_preserve_the_selected_device() {
    let settings = AppSettings {
        selected_camera_device_id: Some("saved".to_owned()),
        ..AppSettings::default()
    };
    let mut state = AppState::new(settings);
    let _ = state.update(Action::DevicesChanged(vec![CameraOption {
        id: "saved".to_owned(),
        label: "Camera".to_owned(),
    }]));

    for status in [
        CameraStatus::PermissionDenied,
        CameraStatus::CameraInUse,
        CameraStatus::SelectedDeviceUnavailable,
        CameraStatus::Error,
    ] {
        assert!(state.update(Action::CameraFailed(status)).is_empty());
        assert_eq!(state.camera_status, status);
        assert_eq!(
            state.update(Action::RetryCamera),
            vec![Effect::StartCamera("saved".to_owned())]
        );
    }
}

#[test]
fn changing_fps_persists_and_restarts_the_active_camera() {
    let mut state = AppState::new(AppSettings::default());
    state.active_camera_id = Some("camera".to_owned());

    assert_eq!(
        state.update(Action::SetCameraFps(60)),
        vec![
            Effect::PersistSettings,
            Effect::StartCamera("camera".to_owned())
        ]
    );
    assert_eq!(state.settings.camera_fps, 60);
    assert!(state.update(Action::SetCameraFps(59)).is_empty());
    assert_eq!(state.settings.camera_fps, 60);

    for fps in CAMERA_FPS_OPTIONS {
        let _ = state.update(Action::SetCameraFps(fps));
        assert_eq!(state.settings.camera_fps, fps);
    }
}

#[test]
fn changing_resolution_persists_and_restarts_the_active_camera() {
    let mut state = AppState::new(AppSettings::default());
    state.active_camera_id = Some("camera".to_owned());

    assert_eq!(
        state.update(Action::SetCameraResolution(CameraResolution::R1280x720)),
        vec![
            Effect::PersistSettings,
            Effect::StartCamera("camera".to_owned())
        ]
    );
    assert_eq!(
        state.settings.camera_resolution,
        CameraResolution::R1280x720
    );

    for resolution in CAMERA_RESOLUTION_OPTIONS {
        let _ = state.update(Action::SetCameraResolution(resolution));
        assert_eq!(state.settings.camera_resolution, resolution);
    }
}

#[test]
fn appearance_change_requests_persistence() {
    let mut state = AppState::new(AppSettings::default());
    assert_eq!(
        state.update(Action::SetShape(OverlayShape::Diamond)),
        vec![Effect::PersistSettings]
    );
    assert_eq!(state.settings.appearance.shape, OverlayShape::Diamond);

    assert_eq!(
        state.update(Action::SetTheme(ThemeId::Ocean)),
        vec![Effect::PersistSettings]
    );
    assert_eq!(state.settings.appearance.theme(), Some(ThemeId::Ocean));
}

#[test]
fn quit_orders_cleanup_before_exit() {
    let mut state = AppState::new(AppSettings::default());
    assert_eq!(
        state.update(Action::Quit),
        vec![Effect::StopCamera, Effect::FlushSettings, Effect::Quit]
    );
}

#[test]
fn every_static_appearance_and_language_choice_is_reachable() {
    let mut state = AppState::new(AppSettings::default());
    for theme in ThemeId::ALL {
        let _ = state.update(Action::SetTheme(theme));
        assert_eq!(state.settings.appearance.theme(), Some(theme));
    }
    for shape in OverlayShape::ALL {
        let _ = state.update(Action::SetShape(shape));
        assert_eq!(state.settings.appearance.shape, shape);
    }
    for fit in PreviewFitMode::ALL {
        let _ = state.update(Action::SetFit(fit));
        assert_eq!(state.settings.appearance.fit, fit);
    }
    for thickness in RING_THICKNESS_OPTIONS {
        let _ = state.update(Action::SetRingThickness(thickness));
        assert_eq!(state.settings.appearance.ring_thickness, thickness);
    }
    for roundness in CORNER_ROUNDNESS_OPTIONS {
        let _ = state.update(Action::SetCornerRoundness(roundness));
        assert_eq!(state.settings.appearance.corner_roundness, roundness);
    }
    for language in AppLanguage::ALL {
        let _ = state.update(Action::SetLanguage(language));
        assert_eq!(state.settings.language, language);
    }
}
