use camlet::camera::{CameraDevice, CameraError};
use camlet::language::{english, portuguese_brazil, AppLanguage};
use camlet::presentation::{
    camera_error_label, camera_option, camera_placeholder_frame, camera_status,
    camera_status_code, camera_status_text, keyboard_action, language_label, release_channel,
    LogicalKey, NamedKey, PhysicalKey,
};
use camlet::presentation::{display_protocol, should_relaunch_with_x11, DisplayEnvironment, Platform};
use camlet::presentation::{react_to_camera_event, unavailable_preview_message, CameraEventReaction};
use camlet::state::{Action, CameraOption, CameraStatus};
use camlet::worker::CameraWorkerEvent;
use camlet::presentation::{
    monitor_maximum, route_key_press, route_preview_press, KeyRouting, PreviewPress,
};

#[test]
fn keyboard_parity_maps_small_large_moves_and_resize() {
    assert_eq!(
        keyboard_action(
            &LogicalKey::Named(NamedKey::ArrowLeft),
            PhysicalKey::Other,
            false,
            640
        ),
        Some(Action::NudgeWindow {
            x: -1,
            y: 0,
            accelerated: false
        })
    );
    assert_eq!(
        keyboard_action(
            &LogicalKey::Named(NamedKey::ArrowDown),
            PhysicalKey::Other,
            true,
            640
        ),
        Some(Action::NudgeWindow {
            x: 0,
            y: 1,
            accelerated: true
        })
    );
    assert_eq!(
        keyboard_action(&LogicalKey::Character("+".to_owned()), PhysicalKey::Other, false, 640),
        Some(Action::ResizeByStep {
            grow: true,
            maximum: 640
        })
    );
    assert_eq!(
        keyboard_action(&LogicalKey::Character("-".to_owned()), PhysicalKey::Other, false, 640),
        Some(Action::ResizeByStep {
            grow: false,
            maximum: 640
        })
    );
    assert_eq!(
        keyboard_action(&LogicalKey::Unidentified, PhysicalKey::NumpadAdd, false, 320),
        Some(Action::ResizeByStep {
            grow: true,
            maximum: 320
        })
    );
    assert_eq!(
        keyboard_action(&LogicalKey::Character("q".to_owned()), PhysicalKey::Other, false, 640),
        None
    );
}

#[test]
fn camera_backend_failures_become_stable_product_states() {
    assert_eq!(
        camera_status(CameraError::PermissionDenied),
        CameraStatus::PermissionDenied
    );
    assert_eq!(
        camera_status(CameraError::DeviceNotFound),
        CameraStatus::SelectedDeviceUnavailable
    );
    assert_eq!(camera_status(CameraError::Busy), CameraStatus::CameraInUse);
    assert_eq!(camera_status(CameraError::Backend), CameraStatus::Error);
    assert_eq!(camera_error_label(CameraError::Busy), "Camera is already in use");
    assert_eq!(camera_status_code(CameraStatus::NoCamera), "no-camera");
}

#[test]
fn labels_come_from_the_selected_catalog() {
    let catalog = english();
    assert_eq!(
        camera_status_text(&catalog, CameraStatus::Loading),
        catalog.camera_status.loading
    );
    assert_eq!(
        language_label(&portuguese_brazil(), AppLanguage::System),
        "Padrão do sistema"
    );
    let option = camera_option(CameraDevice {
        id: "id".to_owned(),
        label: "Desk".to_owned(),
    });
    assert_eq!((option.id.as_str(), option.label.as_str()), ("id", "Desk"));
}

#[test]
fn placeholder_and_release_channel() {
    let frame = camera_placeholder_frame();
    assert_eq!((frame.width, frame.height, frame.sequence), (4, 3, 0));
    assert!(frame.rgba.chunks_exact(4).all(|pixel| pixel == [8, 13, 22, 255]));
    assert_eq!(frame.rgba.len(), 48);
    assert_eq!(release_channel("0.2.0"), "stable");
    assert_eq!(release_channel("0.3.0-beta.1"), "prerelease");
}

#[test]
fn camera_events_drive_the_same_product_and_rendering_path() {
    let devices = CameraWorkerEvent::Devices(Ok(vec![CameraDevice {
        id: "a".to_owned(),
        label: "A".to_owned(),
    }]));
    assert_eq!(
        react_to_camera_event(devices, CameraStatus::Loading),
        CameraEventReaction::DevicesChanged(vec![CameraOption {
            id: "a".to_owned(),
            label: "A".to_owned()
        }])
    );
    assert_eq!(
        react_to_camera_event(CameraWorkerEvent::Devices(Err(CameraError::Busy)), CameraStatus::Preview),
        CameraEventReaction::Ignore
    );
    assert_eq!(
        react_to_camera_event(CameraWorkerEvent::Started(Err(CameraError::Busy)), CameraStatus::Preview),
        CameraEventReaction::Fail {
            message: "Camera is already in use",
            status: CameraStatus::CameraInUse
        }
    );
    let frame = camera_placeholder_frame();
    assert_eq!(
        react_to_camera_event(CameraWorkerEvent::Frame(Ok(frame.clone())), CameraStatus::Loading),
        CameraEventReaction::ShowFrame {
            frame,
            mark_ready: true
        }
    );
    assert_eq!(
        react_to_camera_event(CameraWorkerEvent::Stopped, CameraStatus::Preview),
        CameraEventReaction::Ignore
    );
    assert_eq!(
        unavailable_preview_message(CameraStatus::NoCamera),
        Some("No camera was found")
    );
    assert_eq!(unavailable_preview_message(CameraStatus::Preview), None);
}

#[test]
fn display_protocol_prefers_x11_positioning() {
    let desktop = DisplayEnvironment {
        platform: Platform::Linux,
        wayland_requested: false,
        x11_relaunched: false,
        wayland_display: true,
        wayland_socket: false,
        x_display: true,
    };
    assert!(should_relaunch_with_x11(desktop));
    assert_eq!(display_protocol(desktop), "wayland");
    let relaunched = DisplayEnvironment {
        x11_relaunched: true,
        ..desktop
    };
    assert!(!should_relaunch_with_x11(relaunched));
    assert_eq!(display_protocol(relaunched), "x11");
    assert!(!should_relaunch_with_x11(DisplayEnvironment {
        wayland_requested: true,
        ..desktop
    }));
    let other_unix = DisplayEnvironment {
        platform: Platform::OtherUnix,
        ..desktop
    };
    assert!(!should_relaunch_with_x11(other_unix));
    assert_eq!(display_protocol(other_unix), "wayland");
    assert_eq!(
        display_protocol(DisplayEnvironment {
            platform: Platform::Windows,
            ..desktop
        }),
        "windows"
    );
    assert_eq!(
        display_protocol(DisplayEnvironment {
            wayland_display: false,
            x_display: false,
            ..desktop
        }),
        "unknown"
    );
}

#[test]
fn escape_closes_the_menu_before_it_leaves_resize_mode() {
    let escape = LogicalKey::Named(NamedKey::Escape);
    assert_eq!(
        route_key_press(&escape, PhysicalKey::Other, false, 640, true, true, true),
        KeyRouting::CloseMenu
    );
    assert_eq!(
        route_key_press(&escape, PhysicalKey::Other, false, 640, false, true, true),
        KeyRouting::Apply(Action::SetResizeMode(false))
    );
    assert_eq!(
        route_key_press(&escape, PhysicalKey::Other, false, 640, false, true, false),
        KeyRouting::Ignore
    );
    assert_eq!(
        route_key_press(&LogicalKey::Character("-".to_owned()), PhysicalKey::Other, false, 640, false, false, false),
        KeyRouting::Ignore
    );
    assert_eq!(
        route_key_press(&LogicalKey::Character("=".to_owned()), PhysicalKey::Other, false, 500, true, true, false),
        KeyRouting::Apply(Action::ResizeByStep { grow: true, maximum: 500 })
    );
}

#[test]
fn a_preview_press_closes_the_menu_or_moves_the_overlay() {
    assert_eq!(route_preview_press(true, true, false), PreviewPress::CloseMenu);
    assert_eq!(route_preview_press(false, true, false), PreviewPress::Drag);
    assert_eq!(route_preview_press(false, true, true), PreviewPress::Resize);
    assert_eq!(route_preview_press(false, false, true), PreviewPress::Ignore);
}

#[test]
fn the_monitor_bounds_the_overlay_size() {
    assert_eq!(monitor_maximum(Some(1080)), 640);
    assert_eq!(monitor_maximum(Some(300)), 300);
    assert_eq!(monitor_maximum(Some(100)), 176);
    assert_eq!(monitor_maximum(None), 640);
}
