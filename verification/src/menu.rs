//! UI-independent menu selection model.

use vstd::prelude::*;

use crate::appearance::{OverlayShape, PreviewFitMode, ThemeId, CORNER_ROUNDNESS_OPTIONS, RING_THICKNESS_OPTIONS};
use crate::language::AppLanguage;
use crate::settings::{CameraResolution, CAMERA_FPS_OPTIONS, CAMERA_RESOLUTION_OPTIONS};
use crate::state::{AppState, CameraOption, CameraStatus};

verus! {

/// A selectable value and whether it matches current state.
#[derive(Debug, Clone, PartialEq, Eq)]
pub struct Choice<T> {
    /// Value dispatched when selected.
    pub value: T,
    /// Whether this is the active choice.
    pub selected: bool,
}

/// Camera choice with a user-visible label.
#[derive(Debug, Clone, PartialEq, Eq)]
pub struct CameraChoice {
    /// Opaque backend identifier.
    pub id: String,
    /// User-visible device label.
    pub label: String,
    /// Whether this device is active.
    pub selected: bool,
}

/// Complete values and enable/selected state needed to render the context menu.
#[derive(Debug, Clone, PartialEq, Eq)]
pub struct MenuModel {
    /// Built-in themes.
    pub themes: Vec<Choice<ThemeId>>,
    /// Overlay shapes.
    pub shapes: Vec<Choice<OverlayShape>>,
    /// Language selectors.
    pub languages: Vec<Choice<AppLanguage>>,
    /// Enumerated camera choices.
    pub cameras: Vec<CameraChoice>,
    /// Preview fit choices.
    pub fit_modes: Vec<Choice<PreviewFitMode>>,
    /// Camera capture-rate choices.
    pub camera_fps: Vec<Choice<u8>>,
    /// Camera capture-resolution choices.
    pub camera_resolutions: Vec<Choice<CameraResolution>>,
    /// Ring widths.
    pub ring_thicknesses: Vec<Choice<u8>>,
    /// Corner radii.
    pub corner_roundnesses: Vec<Choice<u8>>,
    /// Current camera status.
    pub camera_status: CameraStatus,
    /// Whether resize mode is active.
    pub resize_mode: bool,
}

/// Whether `choices` lists `values` in order, marking exactly those equal to `selected`.
pub open spec fn lists_choices<T>(choices: Seq<Choice<T>>, values: Seq<T>, selected: Option<T>) -> bool {
    &&& choices.len() == values.len()
    &&& forall|i: int|
        0 <= i < values.len() ==> (#[trigger] choices[i]).value == values[i] && choices[i].selected
            == (Some(values[i]) == selected)
}

/// Whether `choices` lists `cameras` in order, marking those whose id is `active`.
pub open spec fn lists_cameras(
    choices: Seq<CameraChoice>,
    cameras: Seq<CameraOption>,
    active: Option<Seq<char>>,
) -> bool {
    &&& choices.len() == cameras.len()
    &&& forall|i: int|
        0 <= i < cameras.len() ==> (#[trigger] choices[i]).id == cameras[i].id && choices[i].label
            == cameras[i].label && choices[i].selected == (active == Some(cameras[i].id@))
}

impl MenuModel {
    /// Derives a complete menu model from product state.
    pub fn from_state(state: &AppState) -> (model: MenuModel)
        ensures
            lists_choices(
                model.themes@,
                ThemeId::ALL@,
                crate::appearance::spec_theme_of(state.settings.appearance),
            ),
            lists_choices(
                model.shapes@,
                OverlayShape::ALL@,
                Some(state.settings.appearance.shape),
            ),
            lists_choices(model.languages@, AppLanguage::ALL@, Some(state.settings.language)),
            lists_cameras(model.cameras@, state.cameras@, crate::state::opt_chars(state.active_camera_id)),
            lists_choices(model.fit_modes@, PreviewFitMode::ALL@, Some(state.settings.appearance.fit)),
            lists_choices(model.camera_fps@, CAMERA_FPS_OPTIONS@, Some(state.settings.camera_fps)),
            lists_choices(
                model.camera_resolutions@,
                CAMERA_RESOLUTION_OPTIONS@,
                Some(state.settings.camera_resolution),
            ),
            lists_choices(
                model.ring_thicknesses@,
                RING_THICKNESS_OPTIONS@,
                Some(state.settings.appearance.ring_thickness),
            ),
            lists_choices(
                model.corner_roundnesses@,
                CORNER_ROUNDNESS_OPTIONS@,
                Some(state.settings.appearance.corner_roundness),
            ),
            model.camera_status == state.camera_status,
            model.resize_mode == state.resize_mode,
    {
        let theme = state.settings.appearance.theme();
        let shape = state.settings.appearance.shape;
        let language = state.settings.language;
        let fit = state.settings.appearance.fit;
        let fps = state.settings.camera_fps;
        let resolution = state.settings.camera_resolution;
        let ring = state.settings.appearance.ring_thickness;
        let roundness = state.settings.appearance.corner_roundness;
        let mut cameras: Vec<CameraChoice> = Vec::new();
        let mut i: usize = 0;
        while i < state.cameras.len()
            invariant
                i <= state.cameras.len(),
                lists_cameras(
                    cameras@,
                    state.cameras@.take(i as int),
                    crate::state::opt_chars(state.active_camera_id),
                ),
            decreases state.cameras.len() - i,
        {
            let choice = camera_choice(&state.cameras[i], &state.active_camera_id);
            cameras.push(choice);
            i = i + 1;
        }
        assert(state.cameras@.take(state.cameras.len() as int) =~= state.cameras@);
        let is_themes = |v: ThemeId| -> (r: bool)
            ensures
                r == (Some(v) == theme),
            {
                theme == Some(v)
            };
        let is_shapes = |v: OverlayShape| -> (r: bool)
            ensures
                r == (v == shape),
            {
                v == shape
            };
        let is_languages = |v: AppLanguage| -> (r: bool)
            ensures
                r == (v == language),
            {
                v == language
            };
        let is_fit_modes = |v: PreviewFitMode| -> (r: bool)
            ensures
                r == (v == fit),
            {
                v == fit
            };
        let is_camera_fps = |v: u8| -> (r: bool)
            ensures
                r == (v == fps),
            {
                v == fps
            };
        let is_camera_resolutions = |v: CameraResolution| -> (r: bool)
            ensures
                r == (v == resolution),
            {
                v == resolution
            };
        let is_ring_thicknesses = |v: u8| -> (r: bool)
            ensures
                r == (v == ring),
            {
                v == ring
            };
        let is_corner_roundnesses = |v: u8| -> (r: bool)
            ensures
                r == (v == roundness),
            {
                v == roundness
            };
        MenuModel {
            themes: choices(&ThemeId::ALL, is_themes),
            shapes: choices(&OverlayShape::ALL, is_shapes),
            languages: choices(&AppLanguage::ALL, is_languages),
            cameras,
            fit_modes: choices(&PreviewFitMode::ALL, is_fit_modes),
            camera_fps: choices(&CAMERA_FPS_OPTIONS, is_camera_fps),
            camera_resolutions: choices(&CAMERA_RESOLUTION_OPTIONS, is_camera_resolutions),
            ring_thicknesses: choices(&RING_THICKNESS_OPTIONS, is_ring_thicknesses),
            corner_roundnesses: choices(&CORNER_ROUNDNESS_OPTIONS, is_corner_roundnesses),
            camera_status: state.camera_status,
            resize_mode: state.resize_mode,
        }
    }
}

/// Lists `values` in order, marking those for which `is_selected` holds.
fn choices<T: Copy, F: Fn(T) -> bool>(values: &[T], is_selected: F) -> (out: Vec<Choice<T>>)
    requires
        forall|i: int| 0 <= i < values@.len() ==> is_selected.requires((values@[i],)),
    ensures
        out@.len() == values@.len(),
        forall|i: int|
            0 <= i < values@.len() ==> (#[trigger] out@[i]).value == values@[i]
                && is_selected.ensures((values@[i],), out@[i].selected),
{
    let mut out: Vec<Choice<T>> = Vec::new();
    let mut i: usize = 0;
    while i < values.len()
        invariant
            i <= values@.len(),
            out@.len() == i,
            forall|j: int| 0 <= j < values@.len() ==> is_selected.requires((values@[j],)),
            forall|j: int|
                0 <= j < i ==> (#[trigger] out@[j]).value == values@[j] && is_selected.ensures(
                    (values@[j],),
                    out@[j].selected,
                ),
        decreases values@.len() - i,
    {
        let value = values[i];
        let selected = is_selected(value);
        out.push(Choice { value, selected });
        i = i + 1;
    }
    out
}

/// The menu entry for one camera.
fn camera_choice(camera: &CameraOption, active: &Option<String>) -> (choice: CameraChoice)
    ensures
        choice.id == camera.id,
        choice.label == camera.label,
        choice.selected == (crate::state::opt_chars(*active) == Some(camera.id@)),
{
    let selected = match active {
        Some(active) => active.eq(&camera.id),
        None => false,
    };
    CameraChoice { id: camera.id.clone(), label: camera.label.clone(), selected }
}

} // verus!
