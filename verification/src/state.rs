//! Deterministic application state transitions and the side effects they request.

use vstd::prelude::*;

use crate::appearance::{normalize_ring_thickness, AppearanceSettings, OverlayShape, PreviewFitMode, ThemeId};
use crate::geometry::{move_window, resize_square_window, WindowState, RESIZE_STEP};
use crate::language::AppLanguage;
use crate::settings::{AppSettings, CameraResolution};

verus! {

/// Camera lifecycle states shown by Camlet.
#[derive(Debug, Clone, Copy, PartialEq, Eq, Structural, Hash)]
pub enum CameraStatus {
    /// Device enumeration or capture startup is in progress.
    Loading,
    /// Frames are being received.
    Preview,
    /// The user or system denied access.
    PermissionDenied,
    /// Another process or backend owns the device.
    CameraInUse,
    /// Enumeration returned no cameras.
    NoCamera,
    /// A saved camera could not be found.
    SelectedDeviceUnavailable,
    /// Unclassified backend failure.
    Error,
}

impl Default for CameraStatus {
    fn default() -> (status: CameraStatus)
        ensures
            status == CameraStatus::Loading,
    {
        CameraStatus::Loading
    }
}

/// Camera entry safe for product UI. IDs must not enter diagnostics.
#[derive(Debug, Clone, PartialEq, Eq)]
pub struct CameraOption {
    /// Opaque backend identifier.
    pub id: String,
    /// User-visible name.
    pub label: String,
}

/// Entire testable product state, excluding frame pixels and adapter handles.
#[derive(Debug, Clone, PartialEq, Eq)]
pub struct AppState {
    /// Persisted product state.
    pub settings: AppSettings,
    /// Current camera state.
    pub camera_status: CameraStatus,
    /// Most recently enumerated cameras.
    pub cameras: Vec<CameraOption>,
    /// Camera currently requested from the backend.
    pub active_camera_id: Option<String>,
    /// Whether resize controls are active.
    pub resize_mode: bool,
}

/// User, window, and adapter events accepted by [`AppState`].
#[derive(Debug, Clone, PartialEq, Eq)]
pub enum Action {
    /// Apply a built-in ring theme.
    SetTheme(ThemeId),
    /// Change the visible shape.
    SetShape(OverlayShape),
    /// Change camera frame fitting.
    SetFit(PreviewFitMode),
    /// Change ring width.
    SetRingThickness(u8),
    /// Change corner radius.
    SetCornerRoundness(u8),
    /// Change language selection.
    SetLanguage(AppLanguage),
    /// Select a camera by backend ID.
    SetCamera(String),
    /// Change the requested camera capture rate.
    SetCameraFps(u8),
    /// Change the requested camera capture resolution.
    SetCameraResolution(CameraResolution),
    /// Replace enumerated devices.
    DevicesChanged(Vec<CameraOption>),
    /// Capture produced its first usable frame.
    CameraReady,
    /// Capture entered an error state.
    CameraFailed(CameraStatus),
    /// Retry capture or enumeration.
    RetryCamera,
    /// Restore appearance defaults.
    ResetAppearance,
    /// Set absolute logical position.
    MoveWindow { x: i32, y: i32 },
    /// Move by one or 24 logical pixels.
    NudgeWindow { x: i32, y: i32, accelerated: bool },
    /// Resize the native overlay window by one menu step.
    ResizeByStep { grow: bool, maximum: u16 },
    /// Enter or leave resize mode.
    SetResizeMode(bool),
    /// Open About UI.
    OpenAbout,
    /// Cleanly stop and exit.
    Quit,
}

/// Side effects requested from the window, camera and storage adapters.
#[derive(Debug, Clone, PartialEq, Eq)]
pub enum Effect {
    /// Persist a debounced settings snapshot.
    PersistSettings,
    /// Flush settings before shutdown.
    FlushSettings,
    /// Enumerate camera devices.
    EnumerateCameras,
    /// Start or switch capture.
    StartCamera(String),
    /// Release capture.
    StopCamera,
    /// Move the native window.
    MoveWindow(WindowState),
    /// Resize and move the native window.
    ResizeWindow(WindowState),
    /// Open About UI.
    OpenAbout,
    /// Exit after prior effects complete.
    Quit,
}

/// The characters of an optional string.
pub open spec fn opt_chars(s: Option<String>) -> Option<Seq<char>> {
    match s {
        Some(s) => Some(s@),
        None => None,
    }
}

/// The index of the first camera whose id is `id`.
pub open spec fn camera_index(cameras: Seq<CameraOption>, id: Seq<char>) -> Option<int>
    decreases cameras.len(),
{
    if cameras.len() == 0 {
        None
    } else if cameras.last().id@ == id && camera_index(cameras.drop_last(), id) is None {
        Some(cameras.len() - 1)
    } else {
        camera_index(cameras.drop_last(), id)
    }
}

/// Whether some camera has the id `id`.
pub open spec fn has_camera(cameras: Seq<CameraOption>, id: Seq<char>) -> bool {
    exists|i: int| 0 <= i < cameras.len() && cameras[i].id@ == id
}

/// The restart effect after a capture setting changed: restart the active camera, or
/// enumerate when none is active.
pub open spec fn restart_effect(active: Option<String>) -> Effect {
    match active {
        Some(id) => Effect::StartCamera(id),
        None => Effect::EnumerateCameras,
    }
}

/// The state and effects after replacing the enumerated cameras.
pub open spec fn spec_replace_cameras(state: AppState, cameras: Vec<CameraOption>) -> (
    AppState,
    Seq<Effect>,
) {
    let cs = cameras@;
    if cs.len() == 0 {
        (
            AppState {
                cameras,
                active_camera_id: None,
                camera_status: if state.settings.selected_camera_device_id is Some {
                    CameraStatus::SelectedDeviceUnavailable
                } else {
                    CameraStatus::NoCamera
                },
                ..state
            },
            seq![Effect::StopCamera],
        )
    } else {
        let selected: String = match state.settings.selected_camera_device_id {
            Some(saved) => match camera_index(cs, saved@) {
                Some(i) => cs[i].id,
                None => cs[0].id,
            },
            None => cs[0].id,
        };
        let changed = opt_chars(state.settings.selected_camera_device_id) != Some(selected@);
        let settings = AppSettings { selected_camera_device_id: Some(selected), ..state.settings };
        let keep = opt_chars(state.active_camera_id) == Some(selected@) && (state.camera_status
            == CameraStatus::Loading || state.camera_status == CameraStatus::Preview);
        let next = AppState {
            settings,
            cameras,
            active_camera_id: Some(selected),
            camera_status: if keep {
                state.camera_status
            } else {
                CameraStatus::Loading
            },
            ..state
        };
        let effects = if keep {
            if changed {
                seq![Effect::PersistSettings]
            } else {
                seq![]
            }
        } else if changed {
            seq![Effect::PersistSettings, Effect::StartCamera(selected)]
        } else {
            seq![Effect::StartCamera(selected)]
        };
        (next, effects)
    }
}

/// A product value multiplied by the keyboard acceleration, saturating at the `i32` bounds.
pub open spec fn nudge_delta(value: i32, accelerated: bool) -> int {
    crate::geometry::clamp_int(
        value * (if accelerated {
            RESIZE_STEP as int
        } else {
            1
        }),
        i32::MIN as int,
        i32::MAX as int,
    )
}

/// The state and effects after one product action.
pub open spec fn spec_update(state: AppState, action: Action) -> (AppState, Seq<Effect>) {
    let persist = seq![Effect::PersistSettings];
    let settings = state.settings;
    let appearance = settings.appearance;
    match action {
        Action::SetTheme(theme) => (
            AppState {
                settings: AppSettings {
                    appearance: AppearanceSettings {
                        ring_color: crate::appearance::spec_preset(theme).ring,
                        ring_accent_color: crate::appearance::spec_preset(theme).accent,
                        ..appearance
                    },
                    ..settings
                },
                ..state
            },
            persist,
        ),
        Action::SetShape(shape) => (
            AppState {
                settings: AppSettings {
                    appearance: AppearanceSettings { shape, ..appearance },
                    ..settings
                },
                ..state
            },
            persist,
        ),
        Action::SetFit(fit) => (
            AppState {
                settings: AppSettings { appearance: AppearanceSettings { fit, ..appearance }, ..settings },
                ..state
            },
            persist,
        ),
        Action::SetRingThickness(thickness) => (
            AppState {
                settings: AppSettings {
                    appearance: AppearanceSettings {
                        ring_thickness: crate::appearance::spec_normalize_ring_thickness(thickness as i64),
                        ..appearance
                    },
                    ..settings
                },
                ..state
            },
            persist,
        ),
        Action::SetCornerRoundness(roundness) => (
            AppState {
                settings: AppSettings {
                    appearance: AppearanceSettings {
                        corner_roundness: if roundness < 72 {
                            roundness
                        } else {
                            72
                        },
                        ..appearance
                    },
                    ..settings
                },
                ..state
            },
            persist,
        ),
        Action::SetLanguage(language) => (
            AppState { settings: AppSettings { language, ..settings }, ..state },
            persist,
        ),
        Action::SetCamera(id) => if !has_camera(state.cameras@, id@) {
            (state, seq![])
        } else {
            (
                AppState {
                    settings: AppSettings { selected_camera_device_id: Some(id), ..settings },
                    active_camera_id: Some(id),
                    camera_status: CameraStatus::Loading,
                    ..state
                },
                seq![Effect::PersistSettings, Effect::StartCamera(id)],
            )
        },
        Action::SetCameraFps(fps) => if !crate::settings::is_fps_option(fps as int) || settings.camera_fps == fps {
            (state, seq![])
        } else {
            (
                AppState {
                    settings: AppSettings { camera_fps: fps, ..settings },
                    camera_status: CameraStatus::Loading,
                    ..state
                },
                seq![Effect::PersistSettings, restart_effect(state.active_camera_id)],
            )
        },
        Action::SetCameraResolution(resolution) => if settings.camera_resolution == resolution {
            (state, seq![])
        } else {
            (
                AppState {
                    settings: AppSettings { camera_resolution: resolution, ..settings },
                    camera_status: CameraStatus::Loading,
                    ..state
                },
                seq![Effect::PersistSettings, restart_effect(state.active_camera_id)],
            )
        },
        Action::DevicesChanged(cameras) => spec_replace_cameras(state, cameras),
        Action::CameraReady => (AppState { camera_status: CameraStatus::Preview, ..state }, seq![]),
        Action::CameraFailed(status) => (AppState { camera_status: status, ..state }, seq![]),
        Action::RetryCamera => (
            AppState { camera_status: CameraStatus::Loading, ..state },
            seq![restart_effect(state.active_camera_id)],
        ),
        Action::ResetAppearance => (
            AppState { settings: AppSettings { appearance: crate::appearance::default_appearance(), ..settings }, ..state },
            persist,
        ),
        Action::MoveWindow { x, y } => {
            let window = WindowState { x, y, ..settings.window };
            (
                AppState { settings: AppSettings { window, ..settings }, ..state },
                seq![Effect::MoveWindow(window), Effect::PersistSettings],
            )
        },
        Action::NudgeWindow { x, y, accelerated } => {
            let window = WindowState {
                x: crate::geometry::clamp_int(
                    settings.window.x + nudge_delta(x, accelerated),
                    i32::MIN as int,
                    i32::MAX as int,
                ) as i32,
                y: crate::geometry::clamp_int(
                    settings.window.y + nudge_delta(y, accelerated),
                    i32::MIN as int,
                    i32::MAX as int,
                ) as i32,
                ..settings.window
            };
            (
                AppState { settings: AppSettings { window, ..settings }, ..state },
                seq![Effect::MoveWindow(window), Effect::PersistSettings],
            )
        },
        Action::ResizeByStep { grow, maximum } => {
            let side = crate::geometry::spec_resized_side(
                settings.window.width,
                if grow {
                    RESIZE_STEP
                } else {
                    (-RESIZE_STEP) as i16
                },
                maximum,
            ) as u16;
            let window = WindowState { width: side, height: side, ..settings.window };
            (
                AppState {
                    settings: AppSettings {
                        window,
                        appearance: AppearanceSettings {
                            size: if side < 640 {
                                side
                            } else {
                                640
                            },
                            ..appearance
                        },
                        ..settings
                    },
                    ..state
                },
                seq![Effect::ResizeWindow(window), Effect::PersistSettings],
            )
        },
        Action::SetResizeMode(enabled) => (AppState { resize_mode: enabled, ..state }, seq![]),
        Action::OpenAbout => (state, seq![Effect::OpenAbout]),
        Action::Quit => (state, seq![Effect::StopCamera, Effect::FlushSettings, Effect::Quit]),
    }
}

/// Multiplies by one or by the resize step, saturating at the `i32` bounds.
fn accelerate(value: i32, accelerated: bool) -> (scaled: i32)
    ensures
        scaled == nudge_delta(value, accelerated),
{
    if !accelerated {
        return value;
    }
    let product: i64 = value as i64 * RESIZE_STEP as i64;
    crate::geometry::clamp_i64_to_i32(product)
}

/// The option of `cameras` whose id is `id`, searched from the front.
fn find_camera(cameras: &Vec<CameraOption>, id: &String) -> (index: Option<usize>)
    ensures
        match index {
            Some(i) => camera_index(cameras@, id@) == Some(i as int),
            None => camera_index(cameras@, id@) is None,
        },
{
    let mut i: usize = 0;
    while i < cameras.len()
        invariant
            i <= cameras.len(),
            camera_index(cameras@.take(i as int), id@) is None,
        decreases cameras.len() - i,
    {
        assert(cameras@.take(i + 1).drop_last() =~= cameras@.take(i as int));
        if cameras[i].id.eq(id) {
            proof {
                lemma_camera_index_prefix(cameras@, id@, i as int + 1);
            }
            return Some(i);
        }
        i = i + 1;
    }
    assert(cameras@.take(cameras.len() as int) =~= cameras@);
    None
}

/// The first match in a prefix that already holds a match is the first match overall.
proof fn lemma_camera_index_prefix(cameras: Seq<CameraOption>, id: Seq<char>, n: int)
    requires
        0 <= n <= cameras.len(),
        camera_index(cameras.take(n), id) is Some,
    ensures
        camera_index(cameras, id) == camera_index(cameras.take(n), id),
    decreases cameras.len() - n,
{
    if n < cameras.len() {
        assert(cameras.take(n + 1).drop_last() =~= cameras.take(n));
        lemma_camera_index_prefix(cameras, id, n + 1);
    } else {
        assert(cameras.take(n) =~= cameras);
    }
}

/// A matching camera exists exactly when the search finds one.
proof fn lemma_camera_index_found(cameras: Seq<CameraOption>, id: Seq<char>)
    ensures
        camera_index(cameras, id) is Some <==> has_camera(cameras, id),
        camera_index(cameras, id) matches Some(i) ==> 0 <= i < cameras.len() && cameras[i].id@
            == id,
    decreases cameras.len(),
{
    if cameras.len() > 0 {
        lemma_camera_index_found(cameras.drop_last(), id);
        if has_camera(cameras, id) {
            let i = choose|i: int| 0 <= i < cameras.len() && cameras[i].id@ == id;
            if i < cameras.len() - 1 {
                assert(cameras.drop_last()[i] == cameras[i]);
            }
        }
        if has_camera(cameras.drop_last(), id) {
            let i = choose|i: int| 0 <= i < cameras.len() - 1 && cameras.drop_last()[i].id@ == id;
            assert(cameras[i] == cameras.drop_last()[i]);
        }
    }
}

impl AppState {
    /// Creates application state from recovered settings.
    pub fn new(settings: AppSettings) -> (state: AppState)
        ensures
            state == (AppState {
                settings,
                camera_status: CameraStatus::Loading,
                cameras: state.cameras,
                active_camera_id: None,
                resize_mode: false,
            }),
            state.cameras@.len() == 0,
    {
        AppState {
            settings,
            camera_status: CameraStatus::Loading,
            cameras: Vec::new(),
            active_camera_id: None,
            resize_mode: false,
        }
    }

    /// Applies one product action and returns the ordered adapter effects.
    pub fn update(&mut self, action: Action) -> (effects: Vec<Effect>)
        ensures
            (*final(self), effects@) == spec_update(*old(self), action),
    {
        match action {
            Action::SetTheme(theme) => {
                self.settings.appearance.apply_theme(theme);
                vec![Effect::PersistSettings]
            },
            Action::SetShape(shape) => {
                self.settings.appearance.shape = shape;
                vec![Effect::PersistSettings]
            },
            Action::SetFit(fit) => {
                self.settings.appearance.fit = fit;
                vec![Effect::PersistSettings]
            },
            Action::SetRingThickness(thickness) => {
                self.settings.appearance.ring_thickness = normalize_ring_thickness(thickness as i64);
                vec![Effect::PersistSettings]
            },
            Action::SetCornerRoundness(roundness) => {
                self.settings.appearance.corner_roundness = if roundness < 72 {
                    roundness
                } else {
                    72
                };
                vec![Effect::PersistSettings]
            },
            Action::SetLanguage(language) => {
                self.settings.language = language;
                vec![Effect::PersistSettings]
            },
            Action::SetCamera(id) => {
                let found = find_camera(&self.cameras, &id);
                proof {
                    lemma_camera_index_found(self.cameras@, id@);
                }
                if found.is_none() {
                    return Vec::new();
                }
                self.settings.selected_camera_device_id = Some(id.clone());
                self.active_camera_id = Some(id.clone());
                self.camera_status = CameraStatus::Loading;
                vec![Effect::PersistSettings, Effect::StartCamera(id)]
            },
            Action::SetCameraFps(fps) => self.set_camera_fps(fps),
            Action::SetCameraResolution(resolution) => self.set_camera_resolution(resolution),
            Action::DevicesChanged(cameras) => self.replace_cameras(cameras),
            Action::CameraReady => {
                self.camera_status = CameraStatus::Preview;
                Vec::new()
            },
            Action::CameraFailed(status) => {
                self.camera_status = status;
                Vec::new()
            },
            Action::RetryCamera => {
                self.camera_status = CameraStatus::Loading;
                match &self.active_camera_id {
                    Some(id) => vec![Effect::StartCamera(id.clone())],
                    None => vec![Effect::EnumerateCameras],
                }
            },
            Action::ResetAppearance => {
                self.settings.appearance = AppearanceSettings::default();
                vec![Effect::PersistSettings]
            },
            Action::MoveWindow { x, y } => {
                self.settings.window = WindowState { x, y, ..self.settings.window };
                vec![Effect::MoveWindow(self.settings.window), Effect::PersistSettings]
            },
            Action::NudgeWindow { x, y, accelerated } => {
                self.settings.window = move_window(
                    self.settings.window,
                    accelerate(x, accelerated),
                    accelerate(y, accelerated),
                );
                vec![Effect::MoveWindow(self.settings.window), Effect::PersistSettings]
            },
            Action::ResizeByStep { grow, maximum } => {
                let delta: i16 = if grow {
                    RESIZE_STEP
                } else {
                    -RESIZE_STEP
                };
                self.settings.window = resize_square_window(self.settings.window, delta, maximum);
                self.settings.appearance.size = if self.settings.window.width < 640 {
                    self.settings.window.width
                } else {
                    640
                };
                vec![Effect::ResizeWindow(self.settings.window), Effect::PersistSettings]
            },
            Action::SetResizeMode(enabled) => {
                self.resize_mode = enabled;
                Vec::new()
            },
            Action::OpenAbout => vec![Effect::OpenAbout],
            Action::Quit => vec![Effect::StopCamera, Effect::FlushSettings, Effect::Quit],
        }
    }

    /// Changes the requested capture rate; a rate outside the menu options or equal to the
    /// current one changes nothing.
    pub fn set_camera_fps(&mut self, fps: u8) -> (effects: Vec<Effect>)
        ensures
            (*final(self), effects@) == spec_update(*old(self), Action::SetCameraFps(fps)),
    {
        if !(fps == 15 || fps == 24 || fps == 30 || fps == 60) || self.settings.camera_fps == fps {
            return Vec::new();
        }
        self.settings.camera_fps = fps;
        self.camera_status = CameraStatus::Loading;
        let restart = match &self.active_camera_id {
            Some(id) => Effect::StartCamera(id.clone()),
            None => Effect::EnumerateCameras,
        };
        vec![Effect::PersistSettings, restart]
    }

    /// Changes the requested capture resolution; the current one changes nothing.
    pub fn set_camera_resolution(&mut self, resolution: CameraResolution) -> (effects: Vec<
        Effect,
    >)
        ensures
            (*final(self), effects@) == spec_update(
                *old(self),
                Action::SetCameraResolution(resolution),
            ),
    {
        if self.settings.camera_resolution == resolution {
            return Vec::new();
        }
        self.settings.camera_resolution = resolution;
        self.camera_status = CameraStatus::Loading;
        let restart = match &self.active_camera_id {
            Some(id) => Effect::StartCamera(id.clone()),
            None => Effect::EnumerateCameras,
        };
        vec![Effect::PersistSettings, restart]
    }

    /// Replaces the enumerated cameras, keeping the saved camera when it is still present and
    /// otherwise selecting the first one.
    pub fn replace_cameras(&mut self, cameras: Vec<CameraOption>) -> (effects: Vec<Effect>)
        ensures
            (*final(self), effects@) == spec_replace_cameras(*old(self), cameras),
    {
        let previous_status = self.camera_status;
        if cameras.len() == 0 {
            self.cameras = cameras;
            self.active_camera_id = None;
            self.camera_status = if self.settings.selected_camera_device_id.is_some() {
                CameraStatus::SelectedDeviceUnavailable
            } else {
                CameraStatus::NoCamera
            };
            return vec![Effect::StopCamera];
        }
        let index = match &self.settings.selected_camera_device_id {
            Some(saved) => match find_camera(&cameras, saved) {
                Some(i) => i,
                None => 0,
            },
            None => 0,
        };
        proof {
            if let Some(saved) = opt_chars(self.settings.selected_camera_device_id) {
                lemma_camera_index_found(cameras@, saved);
            }
        }
        let selected = cameras[index].id.clone();
        let changed = match &self.settings.selected_camera_device_id {
            Some(saved) => !saved.eq(&selected),
            None => true,
        };
        let same_active = match &self.active_camera_id {
            Some(active) => active.eq(&selected),
            None => false,
        };
        self.settings.selected_camera_device_id = Some(selected.clone());
        self.active_camera_id = Some(selected.clone());
        self.cameras = cameras;
        if same_active && (previous_status == CameraStatus::Loading || previous_status
            == CameraStatus::Preview) {
            self.camera_status = previous_status;
            return if changed {
                vec![Effect::PersistSettings]
            } else {
                Vec::new()
            };
        }
        self.camera_status = CameraStatus::Loading;
        if changed {
            vec![Effect::PersistSettings, Effect::StartCamera(selected)]
        } else {
            vec![Effect::StartCamera(selected)]
        }
    }
}

/// Whether every camera offered by the backend has a non-blank id.
pub open spec fn cameras_named(cameras: Seq<CameraOption>) -> bool {
    forall|i: int| 0 <= i < cameras.len() ==> crate::text::spec_trim(#[trigger] cameras[i].id@).len() > 0
}

/// Whether a state holds valid settings and only cameras with non-blank ids.
pub open spec fn state_valid(state: AppState) -> bool {
    crate::settings::settings_valid(state.settings) && cameras_named(state.cameras@)
}

/// Whether an action offers only cameras with non-blank ids.
pub open spec fn action_valid(action: Action) -> bool {
    match action {
        Action::DevicesChanged(cameras) => cameras_named(cameras@),
        _ => true,
    }
}

/// Every action keeps the settings within the bounds that reading a document enforces, so
/// whatever the product persists reads back unchanged.
pub proof fn lemma_update_preserves_validity(state: AppState, action: Action)
    requires
        state_valid(state),
        action_valid(action),
    ensures
        state_valid(spec_update(state, action).0),
{
    match action {
        Action::SetCamera(id) => {
            if has_camera(state.cameras@, id@) {
                let i = choose|i: int| 0 <= i < state.cameras@.len() && state.cameras@[i].id@ == id@;
                assert(crate::text::spec_trim(state.cameras@[i].id@).len() > 0);
            }
        },
        Action::DevicesChanged(cameras) => {
            if cameras@.len() > 0 {
                if let Some(saved) = opt_chars(state.settings.selected_camera_device_id) {
                    lemma_camera_index_found(cameras@, saved);
                }
            }
        },
        Action::ResizeByStep { grow, maximum } => {},
        _ => {},
    }
}

/// A resize step changes the overlay by 24 logical pixels, shrinking or growing as asked,
/// keeps its top-left corner and its square shape, stays between the minimum side of 176 and
/// the monitor's maximum (176 when that is smaller), and shows the new side as the overlay
/// size (at most 640): shrinking never makes a window of at least 176 larger, growing never
/// makes one that fits the maximum smaller, and a step that stays in bounds moves the side by
/// exactly 24.
pub proof fn lemma_resize_step(state: AppState, grow: bool, maximum: u16)
    ensures
        ({
            let next = spec_update(state, Action::ResizeByStep { grow, maximum }).0;
            let old_side = state.settings.window.width as int;
            let side = next.settings.window.width as int;
            let upper = if maximum < 176 {
                176
            } else {
                maximum as int
            };
            &&& next.settings.window.height == next.settings.window.width
            &&& next.settings.window.x == state.settings.window.x
            &&& next.settings.window.y == state.settings.window.y
            &&& 176 <= side <= upper
            &&& next.settings.appearance.size == (if side < 640 {
                side
            } else {
                640
            })
            &&& !grow && old_side >= 176 ==> side <= old_side
            &&& !grow && 176 <= old_side - 24 <= upper ==> side == old_side - 24
            &&& grow && old_side <= upper ==> side >= old_side
            &&& grow && 176 <= old_side + 24 <= upper ==> side == old_side + 24
        }),
{
}

} // verus!
