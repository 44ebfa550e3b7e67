//! How product state is presented and how input reaches it: status codes and labels, the
//! preview placeholder, and the keyboard shortcuts of the overlay.

use vstd::prelude::*;
use crate::camera::{CameraDevice, CameraError, VideoFrame};
use crate::language::{AppLanguage, Catalog};
use crate::state::{Action, CameraOption, CameraStatus};
use crate::worker::CameraWorkerEvent;

verus! {

/// The release channel of a version: a pre-release version (one with a `-` suffix) is on the
/// pre-release channel.
pub open spec fn spec_release_channel(version: Seq<char>) -> Seq<char> {
    if version.contains('-') {
        "prerelease"@
    } else {
        "stable"@
    }
}

/// The release channel of a version.
pub fn release_channel(version: &str) -> (channel: &'static str)
    ensures
        channel@ == spec_release_channel(version@),
{
    let chars = crate::text::chars_of(version);
    let mut i: usize = 0;
    while i < chars.len()
        invariant
            i <= chars.len(),
            chars@ == version@,
            forall|j: int| 0 <= j < i ==> chars@[j] != '-',
        decreases chars.len() - i,
    {
        if chars[i] == '-' {
            return "prerelease";
        }
        i = i + 1;
    }
    "stable"
}

/// The stable diagnostics code of a camera status.
pub open spec fn spec_camera_status_code(status: CameraStatus) -> Seq<char> {
    match status {
        CameraStatus::Loading => "loading"@,
        CameraStatus::Preview => "preview"@,
        CameraStatus::PermissionDenied => "permission-denied"@,
        CameraStatus::CameraInUse => "camera-in-use"@,
        CameraStatus::NoCamera => "no-camera"@,
        CameraStatus::SelectedDeviceUnavailable => "selected-device-unavailable"@,
        CameraStatus::Error => "error"@,
    }
}

/// The stable diagnostics code of a camera status.
pub fn camera_status_code(status: CameraStatus) -> (code: &'static str)
    ensures
        code@ == spec_camera_status_code(status),
{
    match status {
        CameraStatus::Loading => "loading",
        CameraStatus::Preview => "preview",
        CameraStatus::PermissionDenied => "permission-denied",
        CameraStatus::CameraInUse => "camera-in-use",
        CameraStatus::NoCamera => "no-camera",
        CameraStatus::SelectedDeviceUnavailable => "selected-device-unavailable",
        CameraStatus::Error => "error",
    }
}

/// The menu entry of an enumerated device.
pub fn camera_option(device: CameraDevice) -> (option: CameraOption)
    ensures
        option.id == device.id,
        option.label == device.label,
{
    CameraOption { id: device.id, label: device.label }
}

/// The product status that a camera failure puts the preview in.
pub open spec fn spec_camera_status(error: CameraError) -> CameraStatus {
    match error {
        CameraError::PermissionDenied => CameraStatus::PermissionDenied,
        CameraError::DeviceNotFound => CameraStatus::SelectedDeviceUnavailable,
        CameraError::Busy => CameraStatus::CameraInUse,
        CameraError::Backend => CameraStatus::Error,
    }
}

/// The product status that a camera failure puts the preview in.
pub fn camera_status(error: CameraError) -> (status: CameraStatus)
    ensures
        status == spec_camera_status(error),
{
    match error {
        CameraError::PermissionDenied => CameraStatus::PermissionDenied,
        CameraError::DeviceNotFound => CameraStatus::SelectedDeviceUnavailable,
        CameraError::Busy => CameraStatus::CameraInUse,
        CameraError::Backend => CameraStatus::Error,
    }
}

/// The English description of a camera failure.
pub open spec fn spec_camera_error_label(error: CameraError) -> Seq<char> {
    match error {
        CameraError::PermissionDenied => "Camera permission was denied"@,
        CameraError::DeviceNotFound => "Camera device was not found"@,
        CameraError::Busy => "Camera is already in use"@,
        CameraError::Backend => "Camera backend failed"@,
    }
}

/// The English description of a camera failure.
pub fn camera_error_label(error: CameraError) -> (label: &'static str)
    ensures
        label@ == spec_camera_error_label(error),
{
    match error {
        CameraError::PermissionDenied => "Camera permission was denied",
        CameraError::DeviceNotFound => "Camera device was not found",
        CameraError::Busy => "Camera is already in use",
        CameraError::Backend => "Camera backend failed",
    }
}

/// The color of the placeholder shown while no camera frame exists.
pub open spec fn placeholder_byte(i: int) -> u8 {
    if i % 4 == 0 {
        8
    } else if i % 4 == 1 {
        13
    } else if i % 4 == 2 {
        22
    } else {
        255
    }
}

/// The small dark frame shown while no camera frame exists: 4 × 3 opaque pixels.
pub fn camera_placeholder_frame() -> (frame: VideoFrame)
    ensures
        frame.width == 4,
        frame.height == 3,
        frame.sequence == 0,
        frame.rgba@.len() == 48,
        forall|i: int| 0 <= i < 48 ==> #[trigger] frame.rgba@[i] == placeholder_byte(i),
{
    let mut rgba: Vec<u8> = Vec::new();
    let mut pixel: usize = 0;
    while pixel < 12
        invariant
            pixel <= 12,
            rgba@.len() == pixel * 4,
            forall|i: int| 0 <= i < pixel * 4 ==> #[trigger] rgba@[i] == placeholder_byte(i),
        decreases 12 - pixel,
    {
        rgba.push(8);
        rgba.push(13);
        rgba.push(22);
        rgba.push(255);
        pixel = pixel + 1;
    }
    VideoFrame { width: 4, height: 3, sequence: 0, rgba }
}

/// The localized text of a camera status.
pub open spec fn spec_camera_status_text(catalog: Catalog, status: CameraStatus) -> &'static str {
    match status {
        CameraStatus::Loading => catalog.camera_status.loading,
        CameraStatus::Preview => catalog.camera_status.preview,
        CameraStatus::PermissionDenied => catalog.camera_status.permission_denied,
        CameraStatus::CameraInUse => catalog.camera_status.camera_in_use,
        CameraStatus::NoCamera => catalog.camera_status.no_camera,
        CameraStatus::SelectedDeviceUnavailable => catalog.camera_status.selected_device_unavailable,
        CameraStatus::Error => catalog.camera_status.error,
    }
}

/// The localized text of a camera status.
pub fn camera_status_text(catalog: &Catalog, status: CameraStatus) -> (text: &'static str)
    ensures
        text == spec_camera_status_text(*catalog, status),
{
    match status {
        CameraStatus::Loading => catalog.camera_status.loading,
        CameraStatus::Preview => catalog.camera_status.preview,
        CameraStatus::PermissionDenied => catalog.camera_status.permission_denied,
        CameraStatus::CameraInUse => catalog.camera_status.camera_in_use,
        CameraStatus::NoCamera => catalog.camera_status.no_camera,
        CameraStatus::SelectedDeviceUnavailable => catalog.camera_status.selected_device_unavailable,
        CameraStatus::Error => catalog.camera_status.error,
    }
}

/// The localized name of a language choice.
pub open spec fn spec_language_label(catalog: Catalog, language: AppLanguage) -> &'static str {
    match language {
        AppLanguage::System => catalog.language_system,
        AppLanguage::English => catalog.language_english,
        AppLanguage::PortugueseBrazil => catalog.language_portuguese_brazil,
    }
}

/// The localized name of a language choice.
pub fn language_label(catalog: &Catalog, language: AppLanguage) -> (label: &'static str)
    ensures
        label == spec_language_label(*catalog, language),
{
    match language {
        AppLanguage::System => catalog.language_system,
        AppLanguage::English => catalog.language_english,
        AppLanguage::PortugueseBrazil => catalog.language_portuguese_brazil,
    }
}

// ---------------------------------------------------------------------------------------------
// Keyboard.
// ---------------------------------------------------------------------------------------------

/// Named keys that the overlay reacts to.
#[derive(Debug, Clone, Copy, PartialEq, Eq, Structural)]
pub enum NamedKey {
    /// Up arrow.
    ArrowUp,
    /// Down arrow.
    ArrowDown,
    /// Left arrow.
    ArrowLeft,
    /// Right arrow.
    ArrowRight,
    /// Escape.
    Escape,
    /// Any other named key.
    Other,
}

/// The key as the keyboard layout reports it.
#[derive(Debug, Clone, PartialEq, Eq)]
pub enum LogicalKey {
    /// A named key.
    Named(NamedKey),
    /// A key that types text.
    Character(String),
    /// A key the layout does not identify.
    Unidentified,
}

/// The key by its physical position, for keys that layouts do not name reliably.
#[derive(Debug, Clone, Copy, PartialEq, Eq, Structural)]
pub enum PhysicalKey {
    /// The keypad minus.
    NumpadSubtract,
    /// The keypad plus.
    NumpadAdd,
    /// Any other key.
    Other,
}

/// The product action of a key press: arrows nudge the window (further with Shift), `-`
/// shrinks it and `=` or `+` grows it; keys the layout does not map fall back to the keypad's
/// minus and plus.
pub open spec fn spec_keyboard_action(
    key: LogicalKey,
    physical: PhysicalKey,
    shift: bool,
    maximum: u16,
) -> Option<Action> {
    let by_position = match physical {
        PhysicalKey::NumpadSubtract => Some(Action::ResizeByStep { grow: false, maximum }),
        PhysicalKey::NumpadAdd => Some(Action::ResizeByStep { grow: true, maximum }),
        PhysicalKey::Other => None,
    };
    match key {
        LogicalKey::Named(NamedKey::ArrowUp) => Some(
            Action::NudgeWindow { x: 0, y: -1i32, accelerated: shift },
        ),
        LogicalKey::Named(NamedKey::ArrowDown) => Some(
            Action::NudgeWindow { x: 0, y: 1, accelerated: shift },
        ),
        LogicalKey::Named(NamedKey::ArrowLeft) => Some(
            Action::NudgeWindow { x: -1i32, y: 0, accelerated: shift },
        ),
        LogicalKey::Named(NamedKey::ArrowRight) => Some(
            Action::NudgeWindow { x: 1, y: 0, accelerated: shift },
        ),
        LogicalKey::Character(text) => if text@ == "-"@ {
            Some(Action::ResizeByStep { grow: false, maximum })
        } else if text@ == "="@ || text@ == "+"@ {
            Some(Action::ResizeByStep { grow: true, maximum })
        } else {
            by_position
        },
        _ => by_position,
    }
}

/// The product action of a key press, if any.
pub fn keyboard_action(key: &LogicalKey, physical: PhysicalKey, shift: bool, maximum: u16) -> (action:
    Option<Action>)
    ensures
        action == spec_keyboard_action(*key, physical, shift, maximum),
{
    let by_position = match physical {
        PhysicalKey::NumpadSubtract => Some(Action::ResizeByStep { grow: false, maximum }),
        PhysicalKey::NumpadAdd => Some(Action::ResizeByStep { grow: true, maximum }),
        PhysicalKey::Other => None,
    };
    match key {
        LogicalKey::Named(NamedKey::ArrowUp) => Some(
            Action::NudgeWindow { x: 0, y: -1, accelerated: shift },
        ),
        LogicalKey::Named(NamedKey::ArrowDown) => Some(
            Action::NudgeWindow { x: 0, y: 1, accelerated: shift },
        ),
        LogicalKey::Named(NamedKey::ArrowLeft) => Some(
            Action::NudgeWindow { x: -1, y: 0, accelerated: shift },
        ),
        LogicalKey::Named(NamedKey::ArrowRight) => Some(
            Action::NudgeWindow { x: 1, y: 0, accelerated: shift },
        ),
        LogicalKey::Character(text) => {
            if crate::text::str_equals(text.as_str(), "-") {
                Some(Action::ResizeByStep { grow: false, maximum })
            } else if crate::text::str_equals(text.as_str(), "=") || crate::text::str_equals(
                text.as_str(),
                "+",
            ) {
                Some(Action::ResizeByStep { grow: true, maximum })
            } else {
                by_position
            }
        },
        _ => by_position,
    }
}

/// The arrow keys nudge the overlay one logical pixel in their own direction on the screen,
/// where y grows downward: up and down, and left and right, give opposite deltas along one
/// axis only; Shift asks for the accelerated step. This holds whatever the physical key and
/// the monitor's maximum.
pub proof fn lemma_arrow_keys_move_their_way(physical: PhysicalKey, shift: bool, maximum: u16)
    ensures
        spec_keyboard_action(LogicalKey::Named(NamedKey::ArrowUp), physical, shift, maximum)
            == Some(Action::NudgeWindow { x: 0, y: -1i32, accelerated: shift }),
        spec_keyboard_action(LogicalKey::Named(NamedKey::ArrowDown), physical, shift, maximum)
            == Some(Action::NudgeWindow { x: 0, y: 1, accelerated: shift }),
        spec_keyboard_action(LogicalKey::Named(NamedKey::ArrowLeft), physical, shift, maximum)
            == Some(Action::NudgeWindow { x: -1i32, y: 0, accelerated: shift }),
        spec_keyboard_action(LogicalKey::Named(NamedKey::ArrowRight), physical, shift, maximum)
            == Some(Action::NudgeWindow { x: 1, y: 0, accelerated: shift }),
{
}

/// Where a key press goes.
#[derive(Debug, Clone, PartialEq, Eq)]
pub enum KeyRouting {
    /// Close the open context menu.
    CloseMenu,
    /// Apply a product action.
    Apply(Action),
    /// Nothing to do.
    Ignore,
}

/// Where a key press goes: Escape closes an open menu, or else leaves resize mode on the
/// overlay; other keys act only on the overlay window, through [`keyboard_action`].
pub fn route_key_press(
    key: &LogicalKey,
    physical: PhysicalKey,
    shift: bool,
    maximum: u16,
    menu_open: bool,
    on_overlay: bool,
    resize_mode: bool,
) -> (routing: KeyRouting)
    ensures
        routing == (if *key == LogicalKey::Named(NamedKey::Escape) && menu_open {
            KeyRouting::CloseMenu
        } else if *key == LogicalKey::Named(NamedKey::Escape) && on_overlay && resize_mode {
            KeyRouting::Apply(Action::SetResizeMode(false))
        } else if !on_overlay {
            KeyRouting::Ignore
        } else {
            match spec_keyboard_action(*key, physical, shift, maximum) {
                Some(action) => KeyRouting::Apply(action),
                None => KeyRouting::Ignore,
            }
        }),
{
    let escape = matches!(key, LogicalKey::Named(NamedKey::Escape));
    if escape && menu_open {
        KeyRouting::CloseMenu
    } else if escape && on_overlay && resize_mode {
        KeyRouting::Apply(Action::SetResizeMode(false))
    } else if !on_overlay {
        KeyRouting::Ignore
    } else {
        match keyboard_action(key, physical, shift, maximum) {
            Some(action) => KeyRouting::Apply(action),
            None => KeyRouting::Ignore,
        }
    }
}

/// What a press on the preview does.
#[derive(Debug, Clone, Copy, PartialEq, Eq, Structural)]
pub enum PreviewPress {
    /// Close the open context menu.
    CloseMenu,
    /// Resize the overlay from its bottom-right corner.
    Resize,
    /// Drag the overlay.
    Drag,
    /// Nothing to do.
    Ignore,
}

/// What a press on the preview does: it closes an open menu; otherwise it drags the overlay,
/// or resizes it in resize mode.
pub fn route_preview_press(menu_open: bool, overlay_open: bool, resize_mode: bool) -> (press:
    PreviewPress)
    ensures
        press == (if menu_open {
            PreviewPress::CloseMenu
        } else if !overlay_open {
            PreviewPress::Ignore
        } else if resize_mode {
            PreviewPress::Resize
        } else {
            PreviewPress::Drag
        }),
{
    if menu_open {
        PreviewPress::CloseMenu
    } else if !overlay_open {
        PreviewPress::Ignore
    } else if resize_mode {
        PreviewPress::Resize
    } else {
        PreviewPress::Drag
    }
}

/// The largest overlay side a monitor allows, from its shorter side in whole logical pixels
/// (`None` when that does not fit a `u16`): kept between the smallest window and the largest
/// overlay.
pub fn monitor_maximum(shorter_side: Option<u16>) -> (maximum: u16)
    ensures
        maximum == (match shorter_side {
            Some(side) => if side < crate::geometry::MINIMUM_WINDOW_SIZE {
                crate::geometry::MINIMUM_WINDOW_SIZE
            } else if side > crate::appearance::MAXIMUM_OVERLAY_SIZE {
                crate::appearance::MAXIMUM_OVERLAY_SIZE
            } else {
                side
            },
            None => crate::appearance::MAXIMUM_OVERLAY_SIZE,
        }),
{
    let side = match shorter_side {
        Some(side) => side,
        None => crate::appearance::MAXIMUM_OVERLAY_SIZE,
    };
    if side < crate::geometry::MINIMUM_WINDOW_SIZE {
        crate::geometry::MINIMUM_WINDOW_SIZE
    } else if side > crate::appearance::MAXIMUM_OVERLAY_SIZE {
        crate::appearance::MAXIMUM_OVERLAY_SIZE
    } else {
        side
    }
}

// ---------------------------------------------------------------------------------------------
// Camera events.
// ---------------------------------------------------------------------------------------------

/// What the application does with an event of the camera thread.
#[derive(Debug, PartialEq, Eq)]
pub enum CameraEventReaction {
    /// Hand the enumerated devices to the product state; then see
    /// [`unavailable_preview_message`].
    DevicesChanged(Vec<CameraOption>),
    /// Show the frame, and mark the camera ready unless the preview already runs.
    ShowFrame {
        /// The new frame.
        frame: VideoFrame,
        /// Whether the product state learns that the camera is ready.
        mark_ready: bool,
    },
    /// Clear the preview, show the message, put the camera in the status and stop a running
    /// scenario as failed.
    Fail {
        /// The message shown in the placeholder.
        message: &'static str,
        /// The camera status.
        status: CameraStatus,
    },
    /// Nothing to do.
    Ignore,
}

/// The menu entries of enumerated devices, in order.
pub open spec fn spec_camera_options(devices: Seq<CameraDevice>) -> Seq<CameraOption> {
    Seq::new(devices.len(), |i: int| CameraOption { id: devices[i].id, label: devices[i].label })
}

fn camera_options(devices: Vec<CameraDevice>) -> (options: Vec<CameraOption>)
    ensures
        options@ == spec_camera_options(devices@),
{
    let ghost original = devices@;
    let mut rest = devices;
    let mut options: Vec<CameraOption> = Vec::new();
    while rest.len() > 0
        invariant
            options@.len() + rest@.len() == original.len(),
            rest@ == original.subrange(options@.len() as int, original.len() as int),
            forall|i: int|
                0 <= i < options@.len() ==> #[trigger] options@[i] == (CameraOption {
                    id: original[i].id,
                    label: original[i].label,
                }),
        decreases rest.len(),
    {
        let device = rest.remove(0);
        proof {
            assert(device == original[options@.len() as int]);
        }
        options.push(camera_option(device));
        assert(rest@ =~= original.subrange(options@.len() as int, original.len() as int));
    }
    assert(options@ =~= spec_camera_options(original));
    options
}

/// What the application does with a camera event, given the camera status before it:
/// enumerations go to the product state (a failed refresh is ignored while the preview runs),
/// failures clear the preview, frames are shown, and the rest is ignored.
pub fn react_to_camera_event(event: CameraWorkerEvent, status: CameraStatus) -> (reaction:
    CameraEventReaction)
    ensures
        match event {
            CameraWorkerEvent::Devices(Ok(devices)) => reaction matches CameraEventReaction::DevicesChanged(
                options,
            ) && options@ == spec_camera_options(devices@),
            CameraWorkerEvent::Devices(Err(error)) => if status == CameraStatus::Preview {
                reaction == CameraEventReaction::Ignore
            } else {
                reaction matches CameraEventReaction::Fail { message, status: failed }
                    && message@ == spec_camera_error_label(error) && failed == spec_camera_status(
                    error,
                )
            },
            CameraWorkerEvent::Started(Err(error)) => reaction matches CameraEventReaction::Fail {
                message,
                status: failed,
            } && message@ == spec_camera_error_label(error) && failed == spec_camera_status(error),
            CameraWorkerEvent::Frame(Err(error)) => reaction matches CameraEventReaction::Fail {
                message,
                status: failed,
            } && message@ == spec_camera_error_label(error) && failed == spec_camera_status(error),
            CameraWorkerEvent::Frame(Ok(frame)) => reaction == CameraEventReaction::ShowFrame {
                frame,
                mark_ready: status != CameraStatus::Preview,
            },
            _ => reaction == CameraEventReaction::Ignore,
        },
{
    match event {
        CameraWorkerEvent::Devices(Ok(devices)) => CameraEventReaction::DevicesChanged(
            camera_options(devices),
        ),
        CameraWorkerEvent::Devices(Err(error)) => {
            if status == CameraStatus::Preview {
                CameraEventReaction::Ignore
            } else {
                CameraEventReaction::Fail {
                    message: camera_error_label(error),
                    status: camera_status(error),
                }
            }
        },
        CameraWorkerEvent::Started(Err(error)) => CameraEventReaction::Fail {
            message: camera_error_label(error),
            status: camera_status(error),
        },
        CameraWorkerEvent::Frame(Err(error)) => CameraEventReaction::Fail {
            message: camera_error_label(error),
            status: camera_status(error),
        },
        CameraWorkerEvent::Frame(Ok(frame)) => CameraEventReaction::ShowFrame {
            frame,
            mark_ready: status != CameraStatus::Preview,
        },
        _ => CameraEventReaction::Ignore,
    }
}

/// The message shown once an enumeration left the product without a usable camera.
pub open spec fn spec_unavailable_preview_message(status: CameraStatus) -> Option<Seq<char>> {
    match status {
        CameraStatus::NoCamera => Some("No camera was found"@),
        CameraStatus::SelectedDeviceUnavailable => Some("The selected camera is unavailable"@),
        _ => None,
    }
}

/// After an enumeration, the message that replaces the preview when no usable camera is left
/// (a running scenario then fails); `None` when the preview may go on.
pub fn unavailable_preview_message(status: CameraStatus) -> (message: Option<&'static str>)
    ensures
        match message {
            Some(text) => spec_unavailable_preview_message(status) == Some(text@),
            None => spec_unavailable_preview_message(status) is None,
        },
{
    match status {
        CameraStatus::NoCamera => Some("No camera was found"),
        CameraStatus::SelectedDeviceUnavailable => Some("The selected camera is unavailable"),
        _ => None,
    }
}

// ---------------------------------------------------------------------------------------------
// Display protocol.
// ---------------------------------------------------------------------------------------------

/// The operating system family, as far as the display protocol cares.
#[derive(Debug, Clone, Copy, PartialEq, Eq, Structural)]
pub enum Platform {
    /// Windows.
    Windows,
    /// macOS.
    MacOs,
    /// Linux.
    Linux,
    /// Other Unix desktops.
    OtherUnix,
}

/// What the process environment says about the display.
#[derive(Debug, Clone, Copy, PartialEq, Eq, Structural)]
pub struct DisplayEnvironment {
    /// The operating system family.
    pub platform: Platform,
    /// `WINIT_UNIX_BACKEND` asks for Wayland.
    pub wayland_requested: bool,
    /// The process is the X11 relaunch of an earlier one.
    pub x11_relaunched: bool,
    /// `WAYLAND_DISPLAY` is set.
    pub wayland_display: bool,
    /// `WAYLAND_SOCKET` is set.
    pub wayland_socket: bool,
    /// `DISPLAY` is set.
    pub x_display: bool,
}

/// The display protocol the overlay runs on, as diagnostics name it.
pub open spec fn spec_display_protocol(environment: DisplayEnvironment) -> Seq<char> {
    if environment.platform == Platform::Windows {
        "windows"@
    } else if environment.platform == Platform::MacOs {
        "macos"@
    } else if environment.x11_relaunched || (!environment.wayland_display
        && !environment.wayland_socket && environment.x_display) {
        "x11"@
    } else if environment.wayland_requested || environment.wayland_display {
        "wayland"@
    } else if environment.x_display {
        "x11"@
    } else {
        "unknown"@
    }
}

/// The display protocol the overlay runs on, as diagnostics name it.
pub fn display_protocol(environment: DisplayEnvironment) -> (protocol: &'static str)
    ensures
        protocol@ == spec_display_protocol(environment),
{
    if environment.platform == Platform::Windows {
        "windows"
    } else if environment.platform == Platform::MacOs {
        "macos"
    } else if environment.x11_relaunched || (!environment.wayland_display
        && !environment.wayland_socket && environment.x_display) {
        "x11"
    } else if environment.wayland_requested || environment.wayland_display {
        "wayland"
    } else if environment.x_display {
        "x11"
    } else {
        "unknown"
    }
}

/// Whether a Linux process relaunches itself on X11 (through Xwayland), where it may
/// position its window: only when Wayland is available, X11 is too, the user did not ask for
/// Wayland and this is not already the relaunch.
pub fn should_relaunch_with_x11(environment: DisplayEnvironment) -> (relaunch: bool)
    ensures
        relaunch == (environment.platform == Platform::Linux && !environment.wayland_requested
            && !environment.x11_relaunched && environment.x_display && (environment.wayland_display
            || environment.wayland_socket)),
{
    environment.platform == Platform::Linux && !environment.wayland_requested
        && !environment.x11_relaunched && environment.x_display && (environment.wayland_display
        || environment.wayland_socket)
}

} // verus!
