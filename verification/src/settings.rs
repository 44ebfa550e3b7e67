//! Versioned native settings: tolerant field-by-field parsing and the document that is written.

use vstd::prelude::*;

use crate::appearance::{normalize_ring_thickness, AppearanceSettings, HexColor, OverlayShape, PreviewFitMode, MAXIMUM_CORNER_ROUNDNESS, MAXIMUM_OVERLAY_SIZE, MINIMUM_OVERLAY_SIZE};
use crate::geometry::{WindowState, MINIMUM_WINDOW_SIZE};
use crate::json::{as_i64, as_object, as_text, as_u64, member, JsonValue};
use crate::language::AppLanguage;
use crate::text::str_equals;

verus! {

broadcast use vstd::string::group_string_axioms;

/// Settings schema written by this native release.
pub const SETTINGS_SCHEMA_VERSION: u32 = 1;

/// Capture rates exposed by the context menu.
pub const CAMERA_FPS_OPTIONS: [u8; 4] = [15, 24, 30, 60];

/// Capture rate used when no valid saved value exists.
pub const DEFAULT_CAMERA_FPS: u8 = 30;

/// Capture resolutions exposed by the context menu.
pub const CAMERA_RESOLUTION_OPTIONS: [CameraResolution; 4] = [
    CameraResolution::R320x240,
    CameraResolution::R640x480,
    CameraResolution::R1280x720,
    CameraResolution::R1920x1080,
];

/// Persisted camera capture resolution.
#[derive(Debug, Clone, Copy, PartialEq, Eq, Structural, Hash)]
pub enum CameraResolution {
    /// 320×240 low-bandwidth capture.
    R320x240,
    /// 640×480 standard-definition capture.
    R640x480,
    /// 1280×720 high-definition capture.
    R1280x720,
    /// 1920×1080 full-HD capture.
    R1920x1080,
}

impl Default for CameraResolution {
    fn default() -> (resolution: CameraResolution)
        ensures
            resolution == CameraResolution::R640x480,
    {
        CameraResolution::R640x480
    }
}

/// The physical capture dimensions of a resolution.
pub open spec fn spec_dimensions(resolution: CameraResolution) -> (u32, u32) {
    match resolution {
        CameraResolution::R320x240 => (320, 240),
        CameraResolution::R640x480 => (640, 480),
        CameraResolution::R1280x720 => (1280, 720),
        CameraResolution::R1920x1080 => (1920, 1080),
    }
}

/// The compact menu label of a resolution.
pub open spec fn spec_resolution_label(resolution: CameraResolution) -> &'static str {
    match resolution {
        CameraResolution::R320x240 => "320 × 240",
        CameraResolution::R640x480 => "640 × 480",
        CameraResolution::R1280x720 => "1280 × 720",
        CameraResolution::R1920x1080 => "1920 × 1080",
    }
}

/// The persisted spelling of a resolution.
pub open spec fn spec_resolution_name(resolution: CameraResolution) -> &'static str {
    match resolution {
        CameraResolution::R320x240 => "320x240",
        CameraResolution::R640x480 => "640x480",
        CameraResolution::R1280x720 => "1280x720",
        CameraResolution::R1920x1080 => "1920x1080",
    }
}

impl CameraResolution {
    /// Returns the requested physical capture dimensions.
    pub fn dimensions(self) -> (dimensions: (u32, u32))
        ensures
            dimensions == spec_dimensions(self),
    {
        match self {
            CameraResolution::R320x240 => (320, 240),
            CameraResolution::R640x480 => (640, 480),
            CameraResolution::R1280x720 => (1280, 720),
            CameraResolution::R1920x1080 => (1920, 1080),
        }
    }

    /// Returns the compact menu label.
    pub fn label(self) -> (label: &'static str)
        ensures
            label == spec_resolution_label(self),
    {
        match self {
            CameraResolution::R320x240 => "320 × 240",
            CameraResolution::R640x480 => "640 × 480",
            CameraResolution::R1280x720 => "1280 × 720",
            CameraResolution::R1920x1080 => "1920 × 1080",
        }
    }
}

/// Complete native settings document.
#[derive(Debug, Clone, PartialEq, Eq)]
pub struct AppSettings {
    /// Schema version used to encode this document.
    pub schema_version: u32,
    /// Language selector.
    pub language: AppLanguage,
    /// Selected backend camera identifier.
    pub selected_camera_device_id: Option<String>,
    /// Requested camera capture rate in frames per second.
    pub camera_fps: u8,
    /// Requested camera capture resolution.
    pub camera_resolution: CameraResolution,
    /// Overlay appearance.
    pub appearance: AppearanceSettings,
    /// Last logical host-window bounds.
    pub window: WindowState,
}

/// The settings of a fresh profile.
pub open spec fn default_settings() -> AppSettings {
    AppSettings {
        schema_version: SETTINGS_SCHEMA_VERSION,
        language: AppLanguage::System,
        selected_camera_device_id: None,
        camera_fps: DEFAULT_CAMERA_FPS,
        camera_resolution: CameraResolution::R640x480,
        appearance: crate::appearance::default_appearance(),
        window: crate::geometry::default_window(),
    }
}

impl Default for AppSettings {
    fn default() -> (settings: AppSettings)
        ensures
            settings == default_settings(),
    {
        AppSettings {
            schema_version: SETTINGS_SCHEMA_VERSION,
            language: AppLanguage::System,
            selected_camera_device_id: None,
            camera_fps: DEFAULT_CAMERA_FPS,
            camera_resolution: CameraResolution::R640x480,
            appearance: AppearanceSettings::default(),
            window: WindowState::default(),
        }
    }
}

/// Whether a capture rate is one of the menu options.
pub open spec fn is_fps_option(fps: int) -> bool {
    fps == 15 || fps == 24 || fps == 30 || fps == 60
}

/// Whether a ring width is one of the menu options.
pub open spec fn is_ring_option(thickness: int) -> bool {
    0 <= thickness <= 10 && thickness % 2 == 0
}

/// Whether settings are within every bound that reading a document enforces.
pub open spec fn settings_valid(settings: AppSettings) -> bool {
    &&& settings.schema_version == SETTINGS_SCHEMA_VERSION
    &&& (settings.selected_camera_device_id matches Some(id) ==> crate::text::spec_trim(id@).len() > 0)
    &&& is_fps_option(settings.camera_fps as int)
    &&& MINIMUM_OVERLAY_SIZE <= settings.appearance.size <= MAXIMUM_OVERLAY_SIZE
    &&& is_ring_option(settings.appearance.ring_thickness as int)
    &&& settings.appearance.corner_roundness <= MAXIMUM_CORNER_ROUNDNESS
    &&& settings.window.width >= MINIMUM_WINDOW_SIZE
    &&& settings.window.height >= MINIMUM_WINDOW_SIZE
}

/// Result of tolerant field-by-field parsing.
#[derive(Debug, Clone, PartialEq, Eq)]
pub struct ParsedSettings {
    /// Recovered settings.
    pub settings: AppSettings,
    /// Stable names of fields that were present but invalid.
    pub repaired_fields: Vec<&'static str>,
    /// Schema version observed before recovery.
    pub source_schema_version: Option<u64>,
    /// Whether the source was syntactically valid JSON.
    pub valid_json: bool,
    /// Whether this native version may safely replace the source document.
    pub compatible_for_write: bool,
}

/// Result of loading the native file.
#[derive(Debug, Clone, Copy, PartialEq, Eq, Structural)]
pub enum SettingsOrigin {
    /// Existing native file.
    Native,
    /// First launch without any settings file.
    Defaults,
}

/// Settings plus their load origin.
#[derive(Debug, Clone, PartialEq, Eq)]
pub struct LoadedSettings {
    /// Parsed settings and repair metadata.
    pub parsed: ParsedSettings,
    /// Where those settings came from.
    pub origin: SettingsOrigin,
}

// ---------------------------------------------------------------------------------------------
// What a document means, field by field.
// ---------------------------------------------------------------------------------------------

/// The member `key` of an optional object.
pub open spec fn field_of(object: Option<Seq<(String, JsonValue)>>, key: Seq<char>) -> Option<
    JsonValue,
> {
    match object {
        Some(members) => crate::json::spec_member(members, key),
        None => None,
    }
}

/// The members of the object stored under `section`, if it is an object.
pub open spec fn section_of(root: Seq<(String, JsonValue)>, section: Seq<char>) -> Option<
    Seq<(String, JsonValue)>,
> {
    match crate::json::spec_member(root, section) {
        Some(v) => crate::json::spec_as_object(v),
        None => None,
    }
}

/// A present value read as text.
pub open spec fn text_of(value: Option<JsonValue>) -> Option<Seq<char>> {
    match value {
        Some(v) => crate::json::spec_as_text(v),
        None => None,
    }
}

/// A present value read as a `u64`.
pub open spec fn u64_of(value: Option<JsonValue>) -> Option<u64> {
    match value {
        Some(v) => crate::json::spec_as_u64(v),
        None => None,
    }
}

/// A present value read as an `i64`.
pub open spec fn i64_of(value: Option<JsonValue>) -> Option<i64> {
    match value {
        Some(v) => crate::json::spec_as_i64(v),
        None => None,
    }
}

/// The language named by a persisted spelling.
pub open spec fn spec_parse_language(value: Seq<char>) -> Option<AppLanguage> {
    if value == "system"@ {
        Some(AppLanguage::System)
    } else if value == "en"@ {
        Some(AppLanguage::English)
    } else if value == "pt-BR"@ {
        Some(AppLanguage::PortugueseBrazil)
    } else {
        None
    }
}

/// The shape named by a persisted spelling.
pub open spec fn spec_parse_shape(value: Seq<char>) -> Option<OverlayShape> {
    if value == "original"@ {
        Some(OverlayShape::Original)
    } else if value == "circle"@ {
        Some(OverlayShape::Circle)
    } else if value == "rounded-square"@ {
        Some(OverlayShape::RoundedSquare)
    } else if value == "diamond"@ {
        Some(OverlayShape::Diamond)
    } else if value == "rectangle-y"@ {
        Some(OverlayShape::RectangleY)
    } else if value == "rectangle-x"@ {
        Some(OverlayShape::RectangleX)
    } else {
        None
    }
}

/// The fit mode named by a persisted spelling.
pub open spec fn spec_parse_fit(value: Seq<char>) -> Option<PreviewFitMode> {
    if value == "cover"@ {
        Some(PreviewFitMode::Cover)
    } else if value == "contain"@ {
        Some(PreviewFitMode::Contain)
    } else {
        None
    }
}

/// The resolution named by a persisted spelling.
pub open spec fn spec_parse_resolution(value: Seq<char>) -> Option<CameraResolution> {
    if value == "320x240"@ {
        Some(CameraResolution::R320x240)
    } else if value == "640x480"@ {
        Some(CameraResolution::R640x480)
    } else if value == "1280x720"@ {
        Some(CameraResolution::R1280x720)
    } else if value == "1920x1080"@ {
        Some(CameraResolution::R1920x1080)
    } else {
        None
    }
}

/// A text value parsed by `parse`.
pub open spec fn parsed_text<T>(value: Option<JsonValue>, parse: spec_fn(Seq<char>) -> Option<T>) -> Option<T> {
    match text_of(value) {
        Some(t) => parse(t),
        None => None,
    }
}

/// An unsigned integer value within `minimum..=maximum`.
pub open spec fn bounded_of(value: Option<JsonValue>, minimum: int, maximum: int) -> Option<int> {
    match u64_of(value) {
        Some(n) => if minimum <= n <= maximum {
            Some(n as int)
        } else {
            None
        },
        None => None,
    }
}

/// A capture rate value that is one of the menu options.
pub open spec fn fps_of(value: Option<JsonValue>) -> Option<u8> {
    match u64_of(value) {
        Some(n) => if is_fps_option(n as int) {
            Some(n as u8)
        } else {
            None
        },
        None => None,
    }
}

/// An integer value within the `i32` range.
pub open spec fn i32_of(value: Option<JsonValue>) -> Option<i32> {
    match i64_of(value) {
        Some(n) => if i32::MIN <= n <= i32::MAX {
            Some(n as i32)
        } else {
            None
        },
        None => None,
    }
}

/// Whether the selected device member is absent, `null`, or a string that is not blank.
pub open spec fn device_acceptable(value: Option<JsonValue>) -> bool {
    match value {
        None => true,
        Some(JsonValue::Null) => true,
        Some(JsonValue::Text(s)) => crate::text::spec_trim(s@).len() > 0,
        _ => false,
    }
}

/// The selected device of a document: a non-blank string, else none.
pub open spec fn device_of(value: Option<JsonValue>) -> Option<String> {
    match value {
        Some(JsonValue::Text(s)) => if crate::text::spec_trim(s@).len() > 0 {
            Some(s)
        } else {
            None
        },
        _ => None,
    }
}

/// The field name, when its value was present but had to be replaced.
pub open spec fn repair_flag(value: Option<JsonValue>, accepted: bool, name: &'static str) -> Seq<
    &'static str,
> {
    if value is Some && !accepted {
        seq![name]
    } else {
        seq![]
    }
}

/// The value named `key` inside the `section` object of the document.
pub open spec fn nested(root: Seq<(String, JsonValue)>, section: Seq<char>, key: Seq<char>) -> Option<
    JsonValue,
> {
    field_of(section_of(root, section), key)
}

/// The member `key` of the document's `appearance` object.
pub open spec fn appearance_field(root: Seq<(String, JsonValue)>, key: Seq<char>) -> Option<
    JsonValue,
> {
    nested(root, "appearance"@, key)
}

/// A valid shape stored in the document.
pub open spec fn shape_of(value: Option<JsonValue>) -> Option<OverlayShape> {
    parsed_text(value, |t| spec_parse_shape(t))
}

/// A valid surface size stored in the document.
pub open spec fn size_of(value: Option<JsonValue>) -> Option<int> {
    bounded_of(value, MINIMUM_OVERLAY_SIZE as int, MAXIMUM_OVERLAY_SIZE as int)
}

/// A valid color stored in the document.
pub open spec fn color_of(value: Option<JsonValue>) -> Option<HexColor> {
    parsed_text(value, |t| crate::appearance::spec_parse_hex_color(t))
}

/// A ring width stored in the document, normalized to a menu option.
pub open spec fn ring_of(value: Option<JsonValue>) -> Option<u8> {
    match i64_of(value) {
        Some(v) => Some(crate::appearance::spec_normalize_ring_thickness(v)),
        None => None,
    }
}

/// A valid corner radius stored in the document.
pub open spec fn roundness_of(value: Option<JsonValue>) -> Option<int> {
    bounded_of(value, 0, MAXIMUM_CORNER_ROUNDNESS as int)
}

/// A valid fit mode stored in the document.
pub open spec fn fit_of(value: Option<JsonValue>) -> Option<PreviewFitMode> {
    parsed_text(value, |t| spec_parse_fit(t))
}

/// The appearance a document's root object holds, each invalid or absent field replaced by
/// its default.
pub open spec fn spec_appearance_from(root: Seq<(String, JsonValue)>) -> AppearanceSettings {
    let d = crate::appearance::default_appearance();
    AppearanceSettings {
        shape: match shape_of(appearance_field(root, "shape"@)) {
            Some(v) => v,
            None => d.shape,
        },
        size: match size_of(appearance_field(root, "size"@)) {
            Some(v) => v as u16,
            None => d.size,
        },
        ring_color: match color_of(appearance_field(root, "ringColor"@)) {
            Some(v) => v,
            None => d.ring_color,
        },
        ring_accent_color: match color_of(appearance_field(root, "ringAccentColor"@)) {
            Some(v) => v,
            None => d.ring_accent_color,
        },
        ring_thickness: match ring_of(appearance_field(root, "ringThickness"@)) {
            Some(v) => v,
            None => d.ring_thickness,
        },
        corner_roundness: match roundness_of(appearance_field(root, "cornerRoundness"@)) {
            Some(v) => v as u8,
            None => d.corner_roundness,
        },
        fit: match fit_of(appearance_field(root, "fit"@)) {
            Some(v) => v,
            None => d.fit,
        },
    }
}

/// The window a document's root object holds, each invalid or absent field replaced by its
/// default.
pub open spec fn spec_window_from(root: Seq<(String, JsonValue)>) -> WindowState {
    let d = crate::geometry::default_window();
    let w = "window"@;
    WindowState {
        x: match i32_of(nested(root, w, "x"@)) {
            Some(v) => v,
            None => d.x,
        },
        y: match i32_of(nested(root, w, "y"@)) {
            Some(v) => v,
            None => d.y,
        },
        width: match bounded_of(nested(root, w, "width"@), MINIMUM_WINDOW_SIZE as int, 65535) {
            Some(v) => v as u16,
            None => d.width,
        },
        height: match bounded_of(nested(root, w, "height"@), MINIMUM_WINDOW_SIZE as int, 65535) {
            Some(v) => v as u16,
            None => d.height,
        },
    }
}

/// The settings a document's root object holds, each invalid or absent field replaced by its
/// default.
pub open spec fn spec_settings_from(root: Seq<(String, JsonValue)>) -> AppSettings {
    let d = default_settings();
    AppSettings {
        schema_version: SETTINGS_SCHEMA_VERSION,
        language: match parsed_text(crate::json::spec_member(root, "language"@), |t| spec_parse_language(t)) {
            Some(v) => v,
            None => d.language,
        },
        selected_camera_device_id: device_of(crate::json::spec_member(root, "selectedCameraDeviceId"@)),
        camera_fps: match fps_of(crate::json::spec_member(root, "cameraFps"@)) {
            Some(v) => v,
            None => d.camera_fps,
        },
        camera_resolution: match parsed_text(
            crate::json::spec_member(root, "cameraResolution"@),
            |t| spec_parse_resolution(t),
        ) {
            Some(v) => v,
            None => d.camera_resolution,
        },
        appearance: spec_appearance_from(root),
        window: spec_window_from(root),
    }
}

/// The names of the appearance fields of a root object that were present but invalid.
pub open spec fn spec_appearance_repairs(root: Seq<(String, JsonValue)>) -> Seq<&'static str> {
    let shape = appearance_field(root, "shape"@);
    let size = appearance_field(root, "size"@);
    let ring = appearance_field(root, "ringColor"@);
    let accent = appearance_field(root, "ringAccentColor"@);
    let thickness = appearance_field(root, "ringThickness"@);
    let roundness = appearance_field(root, "cornerRoundness"@);
    let fit = appearance_field(root, "fit"@);
    repair_flag(shape, shape_of(shape) is Some, "appearance.shape")
        + repair_flag(size, size_of(size) is Some, "appearance.size")
        + repair_flag(ring, color_of(ring) is Some, "appearance.ringColor")
        + repair_flag(accent, color_of(accent) is Some, "appearance.ringAccentColor")
        + repair_flag(thickness, ring_of(thickness) is Some, "appearance.ringThickness")
        + repair_flag(roundness, roundness_of(roundness) is Some, "appearance.cornerRoundness")
        + repair_flag(fit, fit_of(fit) is Some, "appearance.fit")
}

/// The names of the window fields of a root object that were present but invalid.
pub open spec fn spec_window_repairs(root: Seq<(String, JsonValue)>) -> Seq<&'static str> {
    let w = "window"@;
    repair_flag(nested(root, w, "x"@), i32_of(nested(root, w, "x"@)) is Some, "window.x")
        + repair_flag(nested(root, w, "y"@), i32_of(nested(root, w, "y"@)) is Some, "window.y")
        + repair_flag(
        nested(root, w, "width"@),
        bounded_of(nested(root, w, "width"@), MINIMUM_WINDOW_SIZE as int, 65535) is Some,
        "window.width",
    ) + repair_flag(
        nested(root, w, "height"@),
        bounded_of(nested(root, w, "height"@), MINIMUM_WINDOW_SIZE as int, 65535) is Some,
        "window.height",
    )
}

/// The names of all fields of a root object that were present but invalid, in document order
/// of the schema.
pub open spec fn spec_repairs(root: Seq<(String, JsonValue)>) -> Seq<&'static str> {
    repair_flag(
        crate::json::spec_member(root, "language"@),
        parsed_text(crate::json::spec_member(root, "language"@), |t| spec_parse_language(t)) is Some,
        "language",
    ) + repair_flag(
        crate::json::spec_member(root, "selectedCameraDeviceId"@),
        device_acceptable(crate::json::spec_member(root, "selectedCameraDeviceId"@)),
        "selectedCameraDeviceId",
    ) + repair_flag(
        crate::json::spec_member(root, "cameraFps"@),
        fps_of(crate::json::spec_member(root, "cameraFps"@)) is Some,
        "cameraFps",
    ) + repair_flag(
        crate::json::spec_member(root, "cameraResolution"@),
        parsed_text(crate::json::spec_member(root, "cameraResolution"@), |t| spec_parse_resolution(t)) is Some,
        "cameraResolution",
    ) + spec_appearance_repairs(root) + spec_window_repairs(root)
}

/// Whether `parsed` is what reading the document `document` gives; `None` stands for text
/// that is not JSON.
pub open spec fn parsed_from(parsed: ParsedSettings, document: Option<JsonValue>) -> bool {
    match document {
        None => {
            &&& parsed.settings == default_settings()
            &&& parsed.repaired_fields@ == seq!["document"]
            &&& parsed.source_schema_version is None
            &&& !parsed.valid_json
            &&& parsed.compatible_for_write
        },
        Some(value) => match crate::json::spec_as_object(value) {
            None => {
                &&& parsed.settings == default_settings()
                &&& parsed.repaired_fields@ == seq!["document"]
                &&& parsed.source_schema_version is None
                &&& parsed.valid_json
                &&& parsed.compatible_for_write
            },
            Some(root) => {
                &&& parsed.settings == spec_settings_from(root)
                &&& parsed.repaired_fields@ == spec_repairs(root)
                &&& parsed.source_schema_version == u64_of(crate::json::spec_member(root, "schemaVersion"@))
                &&& parsed.valid_json
                &&& parsed.compatible_for_write == (match u64_of(
                    crate::json::spec_member(root, "schemaVersion"@),
                ) {
                    Some(version) => version <= SETTINGS_SCHEMA_VERSION,
                    None => true,
                })
            },
        },
    }
}

/// A borrowed optional value, read as a value.
pub open spec fn opt_value(value: Option<&JsonValue>) -> Option<JsonValue> {
    match value {
        Some(v) => Some(*v),
        None => None,
    }
}

/// The members of a borrowed optional object.
pub open spec fn opt_members(object: Option<&Vec<(String, JsonValue)>>) -> Option<
    Seq<(String, JsonValue)>,
> {
    match object {
        Some(m) => Some(m@),
        None => None,
    }
}

/// The characters of a borrowed optional string.
pub open spec fn opt_text(text: Option<&String>) -> Option<Seq<char>> {
    match text {
        Some(s) => Some(s@),
        None => None,
    }
}

/// An optional `u16` as an integer.
pub open spec fn opt_int16(n: Option<u16>) -> Option<int> {
    match n {
        Some(n) => Some(n as int),
        None => None,
    }
}

/// An optional `u8` as an integer.
pub open spec fn opt_int8(n: Option<u8>) -> Option<int> {
    match n {
        Some(n) => Some(n as int),
        None => None,
    }
}

// ---------------------------------------------------------------------------------------------
// Reading.
// ---------------------------------------------------------------------------------------------

/// Parses the current native JSON schema without rejecting unrelated valid fields.
pub fn parse_settings_json(contents: &str) -> (parsed: ParsedSettings)
    ensures
        parsed_from(parsed, crate::json::json_document(contents@)),
{
    match crate::json::parse_json(contents) {
        Some(value) => parse_settings_value(&value),
        None => ParsedSettings {
            settings: AppSettings::default(),
            repaired_fields: document_repair(),
            source_schema_version: None,
            valid_json: false,
            compatible_for_write: true,
        },
    }
}

/// Loads native settings from the text of the settings document, or returns defaults when no
/// document exists.
pub fn load_settings(document: Option<&str>) -> (loaded: LoadedSettings)
    ensures
        match document {
            Some(text) => loaded.origin == SettingsOrigin::Native && parsed_from(
                loaded.parsed,
                crate::json::json_document(text@),
            ),
            None => {
                &&& loaded.origin == SettingsOrigin::Defaults
                &&& loaded.parsed.settings == default_settings()
                &&& loaded.parsed.repaired_fields@.len() == 0
                &&& loaded.parsed.source_schema_version is None
                &&& loaded.parsed.valid_json
                &&& loaded.parsed.compatible_for_write
            },
        },
{
    match document {
        Some(text) => LoadedSettings {
            parsed: parse_settings_json(text),
            origin: SettingsOrigin::Native,
        },
        None => {
            let empty = JsonValue::Object(Vec::new());
            let parsed = parse_settings_value(&empty);
            proof {
                let root = Seq::<(String, JsonValue)>::empty();
                assert(crate::json::spec_as_object(empty) == Some(root));
                assert(spec_repairs(root) =~= Seq::<&'static str>::empty());
            }
            LoadedSettings { parsed, origin: SettingsOrigin::Defaults }
        },
    }
}

/// Recovers settings from a parsed document.
pub fn parse_settings_value(value: &JsonValue) -> (parsed: ParsedSettings)
    ensures
        parsed_from(parsed, Some(*value)),
{
    let root = match as_object(Some(value)) {
        Some(root) => root,
        None => {
            return ParsedSettings {
                settings: AppSettings::default(),
                repaired_fields: document_repair(),
                source_schema_version: None,
                valid_json: true,
                compatible_for_write: true,
            };
        },
    };
    let ghost r = root@;
    let source_schema_version = as_u64(member(Some(root), "schemaVersion"));
    let compatible_for_write = match source_schema_version {
        Some(version) => version <= SETTINGS_SCHEMA_VERSION as u64,
        None => true,
    };
    let mut repaired: Vec<&'static str> = Vec::new();

    let language_value = member(Some(root), "language");
    let language = match optional_string(language_value) {
        Some(text) => parse_language(text.as_str()),
        None => None,
    };
    let language = match language {
        Some(language) => language,
        None => {
            mark_if_present(language_value, "language", &mut repaired);
            AppLanguage::System
        },
    };
    let selected_camera_device_id = parse_device_id(
        member(Some(root), "selectedCameraDeviceId"),
        &mut repaired,
    );
    let camera_fps_value = member(Some(root), "cameraFps");
    let camera_fps = match as_u64(camera_fps_value) {
        Some(n) if n == 15 || n == 24 || n == 30 || n == 60 => n as u8,
        _ => {
            mark_if_present(camera_fps_value, "cameraFps", &mut repaired);
            DEFAULT_CAMERA_FPS
        },
    };
    let resolution_value = member(Some(root), "cameraResolution");
    let camera_resolution = match optional_string(resolution_value) {
        Some(text) => parse_camera_resolution(text.as_str()),
        None => None,
    };
    let camera_resolution = match camera_resolution {
        Some(resolution) => resolution,
        None => {
            mark_if_present(resolution_value, "cameraResolution", &mut repaired);
            CameraResolution::R640x480
        },
    };
    let defaults = AppSettings::default();
    let appearance = parse_appearance(root, &defaults.appearance, &mut repaired);
    let window = parse_window(root, &defaults.window, &mut repaired);
    proof {
        assert(repaired@ =~= spec_repairs(r));
    }
    ParsedSettings {
        settings: AppSettings {
            schema_version: SETTINGS_SCHEMA_VERSION,
            language,
            selected_camera_device_id,
            camera_fps,
            camera_resolution,
            appearance,
            window,
        },
        repaired_fields: repaired,
        source_schema_version,
        valid_json: true,
        compatible_for_write,
    }
}

/// The repair list of a document that is not a settings object.
fn document_repair() -> (repaired: Vec<&'static str>)
    ensures
        repaired@ == seq!["document"],
{
    let mut repaired: Vec<&'static str> = Vec::new();
    repaired.push("document");
    assert(repaired@ =~= seq!["document"]);
    repaired
}

#[verifier::rlimit(40)]
fn parse_appearance(
    root: &Vec<(String, JsonValue)>,
    defaults: &AppearanceSettings,
    repaired: &mut Vec<&'static str>,
) -> (appearance: AppearanceSettings)
    requires
        *defaults == crate::appearance::default_appearance(),
    ensures
        appearance == spec_appearance_from(root@),
        final(repaired)@ == old(repaired)@ + spec_appearance_repairs(root@),
{
    let appearance = as_object(member(Some(root), "appearance"));
    assert(opt_members(appearance) == section_of(root@, "appearance"@));
    let ghost start = repaired@;
    let shape = appearance_shape(root, appearance, defaults.shape, repaired);
    let ghost after_shape = repaired@;
    let size = appearance_size(root, appearance, defaults.size, repaired);
    let ghost after_size = repaired@;
    let ring_color = appearance_color(root, appearance, "ringColor", "appearance.ringColor", defaults.ring_color, repaired);
    let ghost after_ring = repaired@;
    let ring_accent_color = appearance_color(
        root,
        appearance,
        "ringAccentColor",
        "appearance.ringAccentColor",
        defaults.ring_accent_color,
        repaired,
    );
    let ghost after_accent = repaired@;
    let ring_thickness = appearance_ring(root, appearance, defaults.ring_thickness, repaired);
    let ghost after_thickness = repaired@;
    let corner_roundness = appearance_roundness(root, appearance, defaults.corner_roundness, repaired);
    let ghost after_roundness = repaired@;
    let fit = appearance_fit(root, appearance, defaults.fit, repaired);
    proof {
        let r = root@;
        let f_shape = appearance_field(r, "shape"@);
        let f_size = appearance_field(r, "size"@);
        let f_ring = appearance_field(r, "ringColor"@);
        let f_accent = appearance_field(r, "ringAccentColor"@);
        let f_thickness = appearance_field(r, "ringThickness"@);
        let f_roundness = appearance_field(r, "cornerRoundness"@);
        let f_fit = appearance_field(r, "fit"@);
        let a = repair_flag(f_shape, shape_of(f_shape) is Some, "appearance.shape");
        let b = repair_flag(f_size, size_of(f_size) is Some, "appearance.size");
        let c = repair_flag(f_ring, color_of(f_ring) is Some, "appearance.ringColor");
        let d = repair_flag(f_accent, color_of(f_accent) is Some, "appearance.ringAccentColor");
        let e = repair_flag(f_thickness, ring_of(f_thickness) is Some, "appearance.ringThickness");
        let f = repair_flag(f_roundness, roundness_of(f_roundness) is Some, "appearance.cornerRoundness");
        let g = repair_flag(f_fit, fit_of(f_fit) is Some, "appearance.fit");
        assert(after_shape == start + a);
        assert(after_size == after_shape + b);
        assert(after_ring == after_size + c);
        assert(after_accent == after_ring + d);
        assert(after_thickness == after_accent + e);
        assert(after_roundness == after_thickness + f);
        assert(repaired@ == after_roundness + g);
        assert(spec_appearance_repairs(r) == a + b + c + d + e + f + g);
        assert(repaired@ =~= start + (a + b + c + d + e + f + g));
    }
    AppearanceSettings {
        shape,
        size,
        ring_color,
        ring_accent_color,
        ring_thickness,
        corner_roundness,
        fit,
    }
}

fn appearance_shape(
    root: &Vec<(String, JsonValue)>,
    appearance: Option<&Vec<(String, JsonValue)>>,
    default: OverlayShape,
    repaired: &mut Vec<&'static str>,
) -> (shape: OverlayShape)
    requires
        opt_members(appearance) == section_of(root@, "appearance"@),
    ensures
        ({
            let v = appearance_field(root@, "shape"@);
            &&& shape == (match shape_of(v) {
                Some(s) => s,
                None => default,
            })
            &&& final(repaired)@ == old(repaired)@ + repair_flag(v, shape_of(v) is Some, "appearance.shape")
        }),
{
    let value = object_value(appearance, "shape");
    let shape = match optional_string(value) {
        Some(text) => parse_shape(text.as_str()),
        None => None,
    };
    match shape {
        Some(shape) => shape,
        None => {
            mark_if_present(value, "appearance.shape", repaired);
            default
        },
    }
}

fn appearance_size(
    root: &Vec<(String, JsonValue)>,
    appearance: Option<&Vec<(String, JsonValue)>>,
    default: u16,
    repaired: &mut Vec<&'static str>,
) -> (size: u16)
    requires
        opt_members(appearance) == section_of(root@, "appearance"@),
    ensures
        ({
            let v = appearance_field(root@, "size"@);
            &&& size == (match size_of(v) {
                Some(s) => s as u16,
                None => default,
            })
            &&& final(repaired)@ == old(repaired)@ + repair_flag(v, size_of(v) is Some, "appearance.size")
        }),
{
    let value = object_value(appearance, "size");
    match bounded_u16(value, MINIMUM_OVERLAY_SIZE, MAXIMUM_OVERLAY_SIZE) {
        Some(size) => size,
        None => {
            mark_if_present(value, "appearance.size", repaired);
            default
        },
    }
}

fn appearance_color(
    root: &Vec<(String, JsonValue)>,
    appearance: Option<&Vec<(String, JsonValue)>>,
    key: &str,
    field: &'static str,
    default: HexColor,
    repaired: &mut Vec<&'static str>,
) -> (color: HexColor)
    requires
        opt_members(appearance) == section_of(root@, "appearance"@),
    ensures
        ({
            let v = appearance_field(root@, key@);
            &&& color == (match color_of(v) {
                Some(c) => c,
                None => default,
            })
            &&& final(repaired)@ == old(repaired)@ + repair_flag(v, color_of(v) is Some, field)
        }),
{
    let value = object_value(appearance, key);
    let color = match optional_string(value) {
        Some(text) => HexColor::parse(text.as_str()),
        None => None,
    };
    match color {
        Some(color) => color,
        None => {
            mark_if_present(value, field, repaired);
            default
        },
    }
}

fn appearance_ring(
    root: &Vec<(String, JsonValue)>,
    appearance: Option<&Vec<(String, JsonValue)>>,
    default: u8,
    repaired: &mut Vec<&'static str>,
) -> (thickness: u8)
    requires
        opt_members(appearance) == section_of(root@, "appearance"@),
    ensures
        ({
            let v = appearance_field(root@, "ringThickness"@);
            &&& thickness == (match ring_of(v) {
                Some(t) => t,
                None => default,
            })
            &&& final(repaired)@ == old(repaired)@ + repair_flag(
                v,
                ring_of(v) is Some,
                "appearance.ringThickness",
            )
        }),
{
    let value = object_value(appearance, "ringThickness");
    match as_i64(value) {
        Some(thickness) => normalize_ring_thickness(thickness),
        None => {
            mark_if_present(value, "appearance.ringThickness", repaired);
            default
        },
    }
}

fn appearance_roundness(
    root: &Vec<(String, JsonValue)>,
    appearance: Option<&Vec<(String, JsonValue)>>,
    default: u8,
    repaired: &mut Vec<&'static str>,
) -> (roundness: u8)
    requires
        opt_members(appearance) == section_of(root@, "appearance"@),
    ensures
        ({
            let v = appearance_field(root@, "cornerRoundness"@);
            &&& roundness == (match roundness_of(v) {
                Some(r) => r as u8,
                None => default,
            })
            &&& final(repaired)@ == old(repaired)@ + repair_flag(
                v,
                roundness_of(v) is Some,
                "appearance.cornerRoundness",
            )
        }),
{
    let value = object_value(appearance, "cornerRoundness");
    match bounded_u8(value, 0, MAXIMUM_CORNER_ROUNDNESS) {
        Some(roundness) => roundness,
        None => {
            mark_if_present(value, "appearance.cornerRoundness", repaired);
            default
        },
    }
}

fn appearance_fit(
    root: &Vec<(String, JsonValue)>,
    appearance: Option<&Vec<(String, JsonValue)>>,
    default: PreviewFitMode,
    repaired: &mut Vec<&'static str>,
) -> (fit: PreviewFitMode)
    requires
        opt_members(appearance) == section_of(root@, "appearance"@),
    ensures
        ({
            let v = appearance_field(root@, "fit"@);
            &&& fit == (match fit_of(v) {
                Some(f) => f,
                None => default,
            })
            &&& final(repaired)@ == old(repaired)@ + repair_flag(v, fit_of(v) is Some, "appearance.fit")
        }),
{
    let value = object_value(appearance, "fit");
    let fit = match optional_string(value) {
        Some(text) => parse_fit(text.as_str()),
        None => None,
    };
    match fit {
        Some(fit) => fit,
        None => {
            mark_if_present(value, "appearance.fit", repaired);
            default
        },
    }
}

fn parse_window(
    root: &Vec<(String, JsonValue)>,
    defaults: &WindowState,
    repaired: &mut Vec<&'static str>,
) -> (window: WindowState)
    requires
        *defaults == crate::geometry::default_window(),
    ensures
        window == spec_window_from(root@),
        final(repaired)@ == old(repaired)@ + spec_window_repairs(root@),
{
    let window = as_object(member(Some(root), "window"));
    let x_value = object_value(window, "x");
    let y_value = object_value(window, "y");
    let width_value = object_value(window, "width");
    let height_value = object_value(window, "height");
    let x = match signed_i32(x_value) {
        Some(x) => x,
        None => {
            mark_if_present(x_value, "window.x", repaired);
            defaults.x
        },
    };
    let y = match signed_i32(y_value) {
        Some(y) => y,
        None => {
            mark_if_present(y_value, "window.y", repaired);
            defaults.y
        },
    };
    let width = match bounded_u16(width_value, MINIMUM_WINDOW_SIZE, 0xFFFF) {
        Some(width) => width,
        None => {
            mark_if_present(width_value, "window.width", repaired);
            defaults.width
        },
    };
    let height = match bounded_u16(height_value, MINIMUM_WINDOW_SIZE, 0xFFFF) {
        Some(height) => height,
        None => {
            mark_if_present(height_value, "window.height", repaired);
            defaults.height
        },
    };
    proof {
        assert(final(repaired)@ =~= old(repaired)@ + spec_window_repairs(root@));
    }
    WindowState { x, y, width, height }
}

/// Reads a persisted language spelling.
pub fn parse_language(value: &str) -> (language: Option<AppLanguage>)
    ensures
        language == spec_parse_language(value@),
{
    if str_equals(value, "system") {
        Some(AppLanguage::System)
    } else if str_equals(value, "en") {
        Some(AppLanguage::English)
    } else if str_equals(value, "pt-BR") {
        Some(AppLanguage::PortugueseBrazil)
    } else {
        None
    }
}

/// Reads a persisted shape spelling.
pub fn parse_shape(value: &str) -> (shape: Option<OverlayShape>)
    ensures
        shape == spec_parse_shape(value@),
{
    if str_equals(value, "original") {
        Some(OverlayShape::Original)
    } else if str_equals(value, "circle") {
        Some(OverlayShape::Circle)
    } else if str_equals(value, "rounded-square") {
        Some(OverlayShape::RoundedSquare)
    } else if str_equals(value, "diamond") {
        Some(OverlayShape::Diamond)
    } else if str_equals(value, "rectangle-y") {
        Some(OverlayShape::RectangleY)
    } else if str_equals(value, "rectangle-x") {
        Some(OverlayShape::RectangleX)
    } else {
        None
    }
}

/// Reads a persisted fit-mode spelling.
pub fn parse_fit(value: &str) -> (fit: Option<PreviewFitMode>)
    ensures
        fit == spec_parse_fit(value@),
{
    if str_equals(value, "cover") {
        Some(PreviewFitMode::Cover)
    } else if str_equals(value, "contain") {
        Some(PreviewFitMode::Contain)
    } else {
        None
    }
}

/// Reads a persisted resolution spelling.
pub fn parse_camera_resolution(value: &str) -> (resolution: Option<CameraResolution>)
    ensures
        resolution == spec_parse_resolution(value@),
{
    if str_equals(value, "320x240") {
        Some(CameraResolution::R320x240)
    } else if str_equals(value, "640x480") {
        Some(CameraResolution::R640x480)
    } else if str_equals(value, "1280x720") {
        Some(CameraResolution::R1280x720)
    } else if str_equals(value, "1920x1080") {
        Some(CameraResolution::R1920x1080)
    } else {
        None
    }
}

fn parse_device_id(value: Option<&JsonValue>, repaired: &mut Vec<&'static str>) -> (id: Option<
    String,
>)
    ensures
        id == device_of(opt_value(value)),
        final(repaired)@ == old(repaired)@ + repair_flag(
            opt_value(value),
            device_acceptable(opt_value(value)),
            "selectedCameraDeviceId",
        ),
{
    match value {
        None => None,
        Some(JsonValue::Null) => None,
        Some(JsonValue::Text(text)) => {
            let chars = crate::text::chars_of(text.as_str());
            let (start, end) = crate::text::trim_range(&chars);
            if start < end {
                Some(text.clone())
            } else {
                repaired.push("selectedCameraDeviceId");
                None
            }
        },
        Some(_) => {
            repaired.push("selectedCameraDeviceId");
            None
        },
    }
}

fn object_value<'a>(object: Option<&'a Vec<(String, JsonValue)>>, key: &str) -> (value: Option<
    &'a JsonValue,
>)
    ensures
        opt_value(value) == field_of(opt_members(object), key@),
{
    member(object, key)
}

fn optional_string(value: Option<&JsonValue>) -> (text: Option<&String>)
    ensures
        opt_text(text) == text_of(opt_value(value)),
{
    as_text(value)
}

fn bounded_u16(value: Option<&JsonValue>, minimum: u16, maximum: u16) -> (bounded: Option<u16>)
    ensures
        opt_int16(bounded) == bounded_of(
            opt_value(value),
            minimum as int,
            maximum as int,
        ),
{
    match as_u64(value) {
        Some(n) if n <= 0xFFFF && minimum as u64 <= n && n <= maximum as u64 => Some(n as u16),
        _ => None,
    }
}

fn bounded_u8(value: Option<&JsonValue>, minimum: u8, maximum: u8) -> (bounded: Option<u8>)
    ensures
        opt_int8(bounded) == bounded_of(
            opt_value(value),
            minimum as int,
            maximum as int,
        ),
{
    match as_u64(value) {
        Some(n) if n <= 0xFF && minimum as u64 <= n && n <= maximum as u64 => Some(n as u8),
        _ => None,
    }
}

fn signed_i32(value: Option<&JsonValue>) -> (n: Option<i32>)
    ensures
        n == i32_of(opt_value(value)),
{
    match as_i64(value) {
        Some(n) if i32::MIN as i64 <= n && n <= i32::MAX as i64 => Some(n as i32),
        _ => None,
    }
}

fn mark_if_present(value: Option<&JsonValue>, field: &'static str, repaired: &mut Vec<&'static str>)
    ensures
        final(repaired)@ == old(repaired)@ + (if value is Some {
            seq![field]
        } else {
            seq![]
        }),
{
    if value.is_some() {
        repaired.push(field);
    }
    proof {
        assert(final(repaired)@ =~= old(repaired)@ + (if value is Some {
            seq![field]
        } else {
            seq![]
        }));
    }
}

} // verus!

verus! {

/// Every settings value that reading yields, from any document or from no document, is
/// within the bounds of [`settings_valid`].
pub proof fn lemma_parsed_settings_are_valid(parsed: ParsedSettings, document: Option<JsonValue>)
    requires
        parsed_from(parsed, document),
    ensures
        settings_valid(parsed.settings),
{
    assert(settings_valid(default_settings()));
}

// ---------------------------------------------------------------------------------------------
// Writing.
// ---------------------------------------------------------------------------------------------

/// The persisted spelling of a language.
pub open spec fn spec_language_name(language: AppLanguage) -> &'static str {
    match language {
        AppLanguage::System => "system",
        AppLanguage::English => "en",
        AppLanguage::PortugueseBrazil => "pt-BR",
    }
}

/// The persisted spelling of a shape.
pub open spec fn spec_shape_name(shape: OverlayShape) -> &'static str {
    match shape {
        OverlayShape::Original => "original",
        OverlayShape::Circle => "circle",
        OverlayShape::RoundedSquare => "rounded-square",
        OverlayShape::Diamond => "diamond",
        OverlayShape::RectangleY => "rectangle-y",
        OverlayShape::RectangleX => "rectangle-x",
    }
}

/// The persisted spelling of a fit mode.
pub open spec fn spec_fit_name(fit: PreviewFitMode) -> &'static str {
    match fit {
        PreviewFitMode::Cover => "cover",
        PreviewFitMode::Contain => "contain",
    }
}

fn language_name(language: AppLanguage) -> (name: &'static str)
    ensures
        name == spec_language_name(language),
{
    match language {
        AppLanguage::System => "system",
        AppLanguage::English => "en",
        AppLanguage::PortugueseBrazil => "pt-BR",
    }
}

pub(crate) fn shape_name(shape: OverlayShape) -> (name: &'static str)
    ensures
        name == spec_shape_name(shape),
{
    match shape {
        OverlayShape::Original => "original",
        OverlayShape::Circle => "circle",
        OverlayShape::RoundedSquare => "rounded-square",
        OverlayShape::Diamond => "diamond",
        OverlayShape::RectangleY => "rectangle-y",
        OverlayShape::RectangleX => "rectangle-x",
    }
}

pub(crate) fn fit_name(fit: PreviewFitMode) -> (name: &'static str)
    ensures
        name == spec_fit_name(fit),
{
    match fit {
        PreviewFitMode::Cover => "cover",
        PreviewFitMode::Contain => "contain",
    }
}

fn resolution_name(resolution: CameraResolution) -> (name: &'static str)
    ensures
        name == spec_resolution_name(resolution),
{
    match resolution {
        CameraResolution::R320x240 => "320x240",
        CameraResolution::R640x480 => "640x480",
        CameraResolution::R1280x720 => "1280x720",
        CameraResolution::R1920x1080 => "1920x1080",
    }
}

/// Every persisted spelling reads back as what it spells.
pub proof fn lemma_spellings_read_back(
    language: AppLanguage,
    shape: OverlayShape,
    fit: PreviewFitMode,
    resolution: CameraResolution,
)
    ensures
        spec_parse_language(spec_language_name(language)@) == Some(language),
        spec_parse_shape(spec_shape_name(shape)@) == Some(shape),
        spec_parse_fit(spec_fit_name(fit)@) == Some(fit),
        spec_parse_resolution(spec_resolution_name(resolution)@) == Some(resolution),
{
    lemma_language_reads_back(language);
    lemma_shape_reads_back(shape);
    lemma_fit_reads_back(fit);
    lemma_resolution_reads_back(resolution);
}

proof fn lemma_language_reads_back(language: AppLanguage)
    ensures
        spec_parse_language(spec_language_name(language)@) == Some(language),
{
    reveal_strlit("system");
    assert("system"@.len() == 6);
    reveal_strlit("en");
    assert("en"@.len() == 2);
    reveal_strlit("pt-BR");
    assert("pt-BR"@.len() == 5);
    match language {
        AppLanguage::System => {},
        AppLanguage::English => assert("en"@ != "system"@),
        AppLanguage::PortugueseBrazil => {
            assert("pt-BR"@ != "system"@);
            assert("pt-BR"@ != "en"@);
        },
    }
}

proof fn lemma_shape_reads_back(shape: OverlayShape)
    ensures
        spec_parse_shape(spec_shape_name(shape)@) == Some(shape),
{
    reveal_strlit("original");
    assert("original"@.len() == 8);
    reveal_strlit("circle");
    assert("circle"@.len() == 6);
    reveal_strlit("rounded-square");
    assert("rounded-square"@.len() == 14);
    reveal_strlit("diamond");
    assert("diamond"@.len() == 7);
    reveal_strlit("rectangle-y");
    assert("rectangle-y"@.len() == 11);
    reveal_strlit("rectangle-x");
    assert("rectangle-x"@.len() == 11);
    assert("rectangle-y"@[10] == 'y' && "rectangle-x"@[10] == 'x');
    let n = spec_shape_name(shape)@;
    assert(n != "original"@ || shape == OverlayShape::Original);
    assert(n != "circle"@ || shape == OverlayShape::Circle);
    assert(n != "rounded-square"@ || shape == OverlayShape::RoundedSquare);
    assert(n != "diamond"@ || shape == OverlayShape::Diamond);
    assert(n != "rectangle-y"@ || shape == OverlayShape::RectangleY);
}

proof fn lemma_fit_reads_back(fit: PreviewFitMode)
    ensures
        spec_parse_fit(spec_fit_name(fit)@) == Some(fit),
{
    reveal_strlit("cover");
    assert("cover"@.len() == 5);
    reveal_strlit("contain");
    assert("contain"@.len() == 7);
    assert("contain"@ != "cover"@);
}

proof fn lemma_resolution_reads_back(resolution: CameraResolution)
    ensures
        spec_parse_resolution(spec_resolution_name(resolution)@) == Some(resolution),
{
    reveal_strlit("320x240");
    assert("320x240"@.len() == 7);
    reveal_strlit("640x480");
    assert("640x480"@.len() == 7);
    reveal_strlit("1280x720");
    assert("1280x720"@.len() == 8);
    reveal_strlit("1920x1080");
    assert("1920x1080"@.len() == 9);
    assert("320x240"@[0] == '3' && "640x480"@[0] == '6');
    let n = spec_resolution_name(resolution)@;
    assert(n != "320x240"@ || resolution == CameraResolution::R320x240);
    assert(n != "640x480"@ || resolution == CameraResolution::R640x480);
    assert(n != "1280x720"@ || resolution == CameraResolution::R1280x720);
}

pub(crate) fn text_member(key: &str, value: &str) -> (m: (String, JsonValue))
    ensures
        m.0@ == key@,
        m.1 matches JsonValue::Text(t) && t@ == value@,
{
    (String::from_str(key), JsonValue::Text(String::from_str(value)))
}

pub(crate) fn count_member(key: &str, value: u64) -> (m: (String, JsonValue))
    ensures
        m.0@ == key@,
        m.1 == JsonValue::Number(crate::json::JsonNumber::PosInt(value)),
{
    (String::from_str(key), JsonValue::Number(crate::json::JsonNumber::PosInt(value)))
}

fn signed_member(key: &str, value: i32) -> (m: (String, JsonValue))
    ensures
        m.0@ == key@,
        m.1 == JsonValue::Number(signed_number(value)),
        crate::json::spec_as_i64(m.1) == Some(value as i64),
        m.1 is Number,
        crate::json::has_no_float(m.1),
        crate::json::json_round_trips(m.1),
{
    let number = if value < 0 {
        crate::json::JsonNumber::NegInt(value as i64)
    } else {
        crate::json::JsonNumber::PosInt(value as u64)
    };
    (String::from_str(key), JsonValue::Number(number))
}

/// The members of a document; used to talk about the document that [`settings_document`]
/// builds.
pub open spec fn document_root(document: JsonValue) -> Seq<(String, JsonValue)> {
    match document {
        JsonValue::Object(members) => members@,
        _ => Seq::empty(),
    }
}

/// Whether a document has the native settings file's layout: its members, and those of its
/// appearance and window objects, are named in schema order.
pub open spec fn has_settings_layout(document: JsonValue) -> bool {
    &&& document matches JsonValue::Object(m)
    &&& crate::json::member_names(m@) == seq![
        "schemaVersion"@,
        "language"@,
        "selectedCameraDeviceId"@,
        "cameraFps"@,
        "cameraResolution"@,
        "appearance"@,
        "window"@,
    ]
    &&& m@[5].1 matches JsonValue::Object(a) && crate::json::member_names(a@) == seq![
        "shape"@,
        "size"@,
        "ringColor"@,
        "ringAccentColor"@,
        "ringThickness"@,
        "cornerRoundness"@,
        "fit"@,
    ]
    &&& m@[6].1 matches JsonValue::Object(w) && crate::json::member_names(w@) == seq![
        "x"@,
        "y"@,
        "width"@,
        "height"@,
    ]
}

/// How a signed coordinate is written: a negative integer below zero, a non-negative one
/// otherwise.
pub open spec fn signed_number(value: i32) -> crate::json::JsonNumber {
    if value < 0 {
        crate::json::JsonNumber::NegInt(value as i64)
    } else {
        crate::json::JsonNumber::PosInt(value as u64)
    }
}

/// Whether a value is the string `text`.
pub open spec fn text_is(value: JsonValue, text: Seq<char>) -> bool {
    value matches JsonValue::Text(t) && t@ == text
}

/// Whether a document, laid out as [`has_settings_layout`] says, writes every field of
/// `settings` as it is, valid or not: numbers as numbers, enums by their persisted spelling,
/// colors as `#RRGGBB` or `#RRGGBBAA`, and the selected camera as its id or `null`.
pub open spec fn writes_settings(document: JsonValue, settings: AppSettings) -> bool {
    &&& has_settings_layout(document)
    &&& document matches JsonValue::Object(m)
    &&& m@[0].1 == JsonValue::Number(crate::json::JsonNumber::PosInt(settings.schema_version as u64))
    &&& text_is(m@[1].1, spec_language_name(settings.language)@)
    &&& match settings.selected_camera_device_id {
        Some(id) => text_is(m@[2].1, id@),
        None => m@[2].1 == JsonValue::Null,
    }
    &&& m@[3].1 == JsonValue::Number(crate::json::JsonNumber::PosInt(settings.camera_fps as u64))
    &&& text_is(m@[4].1, spec_resolution_name(settings.camera_resolution)@)
    &&& m@[5].1 matches JsonValue::Object(a)
    &&& text_is(a@[0].1, spec_shape_name(settings.appearance.shape)@)
    &&& a@[1].1 == JsonValue::Number(crate::json::JsonNumber::PosInt(settings.appearance.size as u64))
    &&& text_is(a@[2].1, crate::appearance::spec_format_hex_color(settings.appearance.ring_color))
    &&& text_is(
        a@[3].1,
        crate::appearance::spec_format_hex_color(settings.appearance.ring_accent_color),
    )
    &&& a@[4].1 == JsonValue::Number(
        crate::json::JsonNumber::PosInt(settings.appearance.ring_thickness as u64),
    )
    &&& a@[5].1 == JsonValue::Number(
        crate::json::JsonNumber::PosInt(settings.appearance.corner_roundness as u64),
    )
    &&& text_is(a@[6].1, spec_fit_name(settings.appearance.fit)@)
    &&& m@[6].1 matches JsonValue::Object(w)
    &&& w@[0].1 == JsonValue::Number(signed_number(settings.window.x))
    &&& w@[1].1 == JsonValue::Number(signed_number(settings.window.y))
    &&& w@[2].1 == JsonValue::Number(crate::json::JsonNumber::PosInt(settings.window.width as u64))
    &&& w@[3].1 == JsonValue::Number(crate::json::JsonNumber::PosInt(settings.window.height as u64))
}

/// Builds the native JSON document for settings: the schema's members in schema order, enums
/// by their persisted spelling and colors as `#RRGGBB` or `#RRGGBBAA`.
///
/// Valid settings read back from this document unchanged, with nothing repaired.
#[verifier::spinoff_prover]
#[verifier::rlimit(40)]
pub fn settings_document(settings: &AppSettings) -> (document: JsonValue)
    ensures
        document is Object,
        has_settings_layout(document),
        writes_settings(document, *settings),
        crate::json::has_no_float(document),
        crate::json::json_round_trips(document),
        crate::json::json_nesting_within(document, 64),
        u64_of(crate::json::spec_member(document_root(document), "schemaVersion"@)) == Some(
            settings.schema_version as u64,
        ),
        settings_valid(*settings) ==> spec_settings_from(document_root(document)) == *settings,
        settings_valid(*settings) ==> spec_repairs(document_root(document)).len() == 0,
{
    let appearance = &settings.appearance;
    let window = &settings.window;
    let ring = appearance.ring_color.to_hex_string();
    let accent = appearance.ring_accent_color.to_hex_string();
    let appearance_members: Vec<(String, JsonValue)> = vec![
        text_member("shape", shape_name(appearance.shape)),
        count_member("size", appearance.size as u64),
        text_member("ringColor", ring.as_str()),
        text_member("ringAccentColor", accent.as_str()),
        count_member("ringThickness", appearance.ring_thickness as u64),
        count_member("cornerRoundness", appearance.corner_roundness as u64),
        text_member("fit", fit_name(appearance.fit)),
    ];
    let window_members: Vec<(String, JsonValue)> = vec![
        signed_member("x", window.x),
        signed_member("y", window.y),
        count_member("width", window.width as u64),
        count_member("height", window.height as u64),
    ];
    let device = match &settings.selected_camera_device_id {
        Some(id) => JsonValue::Text(id.clone()),
        None => JsonValue::Null,
    };
    let members: Vec<(String, JsonValue)> = vec![
        count_member("schemaVersion", settings.schema_version as u64),
        text_member("language", language_name(settings.language)),
        (String::from_str("selectedCameraDeviceId"), device),
        count_member("cameraFps", settings.camera_fps as u64),
        text_member("cameraResolution", resolution_name(settings.camera_resolution)),
        (String::from_str("appearance"), JsonValue::Object(appearance_members)),
        (String::from_str("window"), JsonValue::Object(window_members)),
    ];
    let document = JsonValue::Object(members);
    proof {
        lemma_document_keys_distinct();
        reveal_with_fuel(crate::json::spec_member, 8);
        crate::appearance::lemma_hex_color_round_trip(appearance.ring_color);
        crate::appearance::lemma_hex_color_round_trip(appearance.ring_accent_color);
        lemma_spellings_read_back(
            settings.language,
            appearance.shape,
            appearance.fit,
            settings.camera_resolution,
        );
        let a = JsonValue::Object(appearance_members);
        let w = JsonValue::Object(window_members);
        assert(has_settings_layout(document)) by {
            assert(crate::json::member_names(appearance_members@) =~= seq![
                "shape"@,
                "size"@,
                "ringColor"@,
                "ringAccentColor"@,
                "ringThickness"@,
                "cornerRoundness"@,
                "fit"@,
            ]);
            assert(crate::json::member_names(window_members@) =~= seq![
                "x"@,
                "y"@,
                "width"@,
                "height"@,
            ]);
            assert(crate::json::member_names(members@) =~= seq![
                "schemaVersion"@,
                "language"@,
                "selectedCameraDeviceId"@,
                "cameraFps"@,
                "cameraResolution"@,
                "appearance"@,
                "window"@,
            ]);
        }
        assert(writes_settings(document, *settings)) by {
            assert(has_settings_layout(document));
        }
        assert(appearance_members@.len() == 7);
        assert forall|i: int| 0 <= i < 7 implies crate::json::has_no_float(
            #[trigger] appearance_members@[i].1,
        ) by {
            assert(i == 0 || i == 1 || i == 2 || i == 3 || i == 4 || i == 5 || i == 6);
        }
        assert(crate::json::has_no_float(a));
        assert(window_members@.len() == 4);
        assert forall|i: int| 0 <= i < 4 implies crate::json::has_no_float(
            #[trigger] window_members@[i].1,
        ) by {
            assert(i == 0 || i == 1 || i == 2 || i == 3);
        }
        assert(crate::json::has_no_float(w));
        assert(members@.len() == 7);
        assert forall|i: int| 0 <= i < 7 implies crate::json::has_no_float(
            #[trigger] members@[i].1,
        ) by {
            assert(i == 0 || i == 1 || i == 2 || i == 3 || i == 4 || i == 5 || i == 6);
        }
        assert(crate::json::has_no_float(document));
        assert forall|i: int, j: int| 0 <= i < j < 7 implies (#[trigger] appearance_members@[i]).0@
            != (#[trigger] appearance_members@[j]).0@ by {
            assert(i == 0 || i == 1 || i == 2 || i == 3 || i == 4 || i == 5);
            assert(j == 1 || j == 2 || j == 3 || j == 4 || j == 5 || j == 6);
        }
        assert forall|i: int| 0 <= i < 7 implies crate::json::json_round_trips(
            #[trigger] appearance_members@[i].1,
        ) by {
            assert(i == 0 || i == 1 || i == 2 || i == 3 || i == 4 || i == 5 || i == 6);
        }
        assert(crate::json::json_round_trips(a));
        assert forall|i: int, j: int| 0 <= i < j < 4 implies (#[trigger] window_members@[i]).0@
            != (#[trigger] window_members@[j]).0@ by {
            assert(i == 0 || i == 1 || i == 2);
            assert(j == 1 || j == 2 || j == 3);
        }
        assert forall|i: int| 0 <= i < 4 implies crate::json::json_round_trips(
            #[trigger] window_members@[i].1,
        ) by {
            assert(i == 0 || i == 1 || i == 2 || i == 3);
        }
        assert(crate::json::json_round_trips(w));
        assert forall|i: int, j: int| 0 <= i < j < 7 implies (#[trigger] members@[i]).0@
            != (#[trigger] members@[j]).0@ by {
            assert(i == 0 || i == 1 || i == 2 || i == 3 || i == 4 || i == 5);
            assert(j == 1 || j == 2 || j == 3 || j == 4 || j == 5 || j == 6);
        }
        assert forall|i: int| 0 <= i < 7 implies crate::json::json_round_trips(
            #[trigger] members@[i].1,
        ) by {
            assert(i == 0 || i == 1 || i == 2 || i == 3 || i == 4 || i == 5 || i == 6);
        }
        assert(crate::json::json_round_trips(document));
        assert forall|i: int| 0 <= i < 7 implies crate::json::json_nesting_within(
            #[trigger] appearance_members@[i].1,
            62,
        ) by {
            assert(i == 0 || i == 1 || i == 2 || i == 3 || i == 4 || i == 5 || i == 6);
        }
        assert forall|i: int| 0 <= i < 4 implies crate::json::json_nesting_within(
            #[trigger] window_members@[i].1,
            62,
        ) by {
            assert(i == 0 || i == 1 || i == 2 || i == 3);
        }
        assert(crate::json::json_nesting_within(a, 63));
        assert(crate::json::json_nesting_within(w, 63));
        assert forall|i: int| 0 <= i < 7 implies crate::json::json_nesting_within(
            #[trigger] members@[i].1,
            63,
        ) by {
            assert(i == 0 || i == 1 || i == 2 || i == 3 || i == 4 || i == 5 || i == 6);
        }
        assert(crate::json::json_nesting_within(document, 64));
        let root = document_root(document);
        assert(section_of(root, "appearance"@) == Some(appearance_members@));
        assert(section_of(root, "window"@) == Some(window_members@));
    }
    document
}

/// The member names of the settings document are pairwise distinct.
proof fn lemma_document_keys_distinct()
    ensures
        "schemaVersion"@.len() == 13,
        "language"@.len() == 8,
        "selectedCameraDeviceId"@.len() == 22,
        "cameraFps"@.len() == 9,
        "cameraResolution"@.len() == 16,
        "appearance"@.len() == 10,
        "window"@.len() == 6,
        "shape"@.len() == 5,
        "size"@.len() == 4,
        "ringColor"@.len() == 9,
        "ringAccentColor"@.len() == 15,
        "ringThickness"@.len() == 13,
        "cornerRoundness"@.len() == 15,
        "ringAccentColor"@ != "cornerRoundness"@,
        "fit"@.len() == 3,
        "x"@.len() == 1,
        "y"@.len() == 1,
        "x"@ != "y"@,
        "width"@.len() == 5,
        "height"@.len() == 6,
{
    reveal_strlit("schemaVersion");
    reveal_strlit("language");
    reveal_strlit("selectedCameraDeviceId");
    reveal_strlit("cameraFps");
    reveal_strlit("cameraResolution");
    reveal_strlit("appearance");
    reveal_strlit("window");
    reveal_strlit("shape");
    reveal_strlit("size");
    reveal_strlit("ringColor");
    reveal_strlit("ringAccentColor");
    reveal_strlit("ringThickness");
    reveal_strlit("cornerRoundness");
    reveal_strlit("fit");
    reveal_strlit("x");
    reveal_strlit("y");
    reveal_strlit("width");
    reveal_strlit("height");
    assert("ringAccentColor"@[0] != "cornerRoundness"@[0]);
    assert("x"@[0] != "y"@[0]);
}

/// Whether `document` is a settings document that holds `settings`, as [`settings_document`]
/// builds it.
pub open spec fn holds_settings(document: JsonValue, settings: AppSettings) -> bool {
    &&& document is Object
    &&& has_settings_layout(document)
    &&& writes_settings(document, settings)
    &&& crate::json::has_no_float(document)
    &&& crate::json::json_round_trips(document)
    &&& crate::json::json_nesting_within(document, 64)
    &&& u64_of(crate::json::spec_member(document_root(document), "schemaVersion"@)) == Some(
        settings.schema_version as u64,
    )
    &&& settings_valid(settings) ==> spec_settings_from(document_root(document)) == settings
    &&& settings_valid(settings) ==> spec_repairs(document_root(document)).len() == 0
}

/// Whether `bytes` are a native settings file for `settings`: the UTF-8 text of a document
/// that holds them, followed by a newline, and which `serde_json` reads back as that document.
pub open spec fn settings_file_text(settings: AppSettings, bytes: Seq<u8>) -> bool {
    exists|written: Seq<char>, document: JsonValue|
        #![trigger vstd::utf8::encode_utf8(written + "\n"@), holds_settings(document, settings)]
        holds_settings(document, settings) && bytes == vstd::utf8::encode_utf8(written + "\n"@)
            && crate::json::json_document(written + "\n"@) == Some(document)
}

proof fn lemma_encode_utf8_concat(a: Seq<char>, b: Seq<char>)
    ensures
        vstd::utf8::encode_utf8(a + b) == vstd::utf8::encode_utf8(a) + vstd::utf8::encode_utf8(b),
    decreases a.len(),
{
    if a.len() == 0 {
        assert(a + b =~= b);
        assert(vstd::utf8::encode_utf8(a) =~= Seq::<u8>::empty());
        assert(vstd::utf8::encode_utf8(a) + vstd::utf8::encode_utf8(b) =~= vstd::utf8::encode_utf8(b));
    } else {
        lemma_encode_utf8_concat(a.drop_first(), b);
        assert((a + b).drop_first() =~= a.drop_first() + b);
        assert((a + b)[0] == a[0]);
        let head = vstd::utf8::encode_scalar(a[0] as u32);
        assert(head + (vstd::utf8::encode_utf8(a.drop_first()) + vstd::utf8::encode_utf8(b)) =~= (
        head + vstd::utf8::encode_utf8(a.drop_first())) + vstd::utf8::encode_utf8(b));
    }
}

proof fn lemma_newline_bytes()
    ensures
        vstd::utf8::encode_utf8("\n"@) == seq![10u8],
        crate::json::json_white_space("\n"@),
{
    reveal_strlit("\n");
    assert("\n"@ =~= seq!['\n']);
    assert(('\n' as u32) == 10u32);
    assert((10u32 & 0x7Fu32) == 10u32) by (bit_vector);
    let line = seq!['\n'];
    assert(line.drop_first() =~= Seq::<char>::empty());
    assert(vstd::utf8::encode_utf8(line.drop_first()) =~= Seq::<u8>::empty());
    assert(line[0] as u32 == 10u32);
    assert(vstd::utf8::has_width_1_encoding(10u32));
    assert(vstd::utf8::encode_scalar(10u32) =~= seq![10u8]);
    assert(vstd::utf8::encode_utf8(line) =~= vstd::utf8::encode_scalar(line[0] as u32)
        + vstd::utf8::encode_utf8(line.drop_first()));
    assert(vstd::utf8::encode_utf8(line) =~= seq![10u8]);
}

/// The bytes of the native settings file: the pretty-printed settings document followed by a
/// newline. `None` when `serde_json` reports a serialization failure.
pub fn encode_settings(settings: &AppSettings) -> (bytes: Option<Vec<u8>>)
    ensures
        match bytes {
            Some(b) => exists|document: JsonValue|
                holds_settings(document, *settings) && crate::json::json_pretty_text(document)
                    == Some(b@.drop_last()) && b@.len() > 0 && b@.last() == 10u8,
            None => exists|document: JsonValue|
                holds_settings(document, *settings) && crate::json::json_pretty_text(document)
                    is None,
        },
        bytes matches Some(b) ==> settings_file_text(*settings, b@),
        bytes is Some,
{
    let document = settings_document(settings);
    assert(holds_settings(document, *settings));
    match crate::json::write_json_pretty(&document) {
        Some(mut text) => {
            let ghost printed = text@;
            text.push(10u8);
            proof {
                assert(text@.drop_last() =~= printed);
                let written = choose|written: Seq<char>|
                    printed == vstd::utf8::encode_utf8(written) && forall|trailing: Seq<char>|
                        crate::json::json_white_space(trailing) ==> #[trigger] crate::json::json_document(
                            written + trailing,
                        ) == Some(document);
                lemma_newline_bytes();
                lemma_encode_utf8_concat(written, "\n"@);
                assert(text@ =~= vstd::utf8::encode_utf8(written + "\n"@));
                assert(crate::json::json_document(written + "\n"@) == Some(document));
            }
            Some(text)
        },
        None => None,
    }
}

/// Settings written to the native file read back unchanged: parsing the file's text gives the
/// same settings, repairs nothing, and leaves the file writable.
pub proof fn lemma_written_settings_read_back(
    settings: AppSettings,
    bytes: Seq<u8>,
    text: Seq<char>,
    parsed: ParsedSettings,
)
    requires
        settings_valid(settings),
        settings_file_text(settings, bytes),
        vstd::utf8::encode_utf8(text) == bytes,
        parsed_from(parsed, crate::json::json_document(text)),
    ensures
        parsed.settings == settings,
        parsed.repaired_fields@.len() == 0,
        parsed.valid_json,
        parsed.compatible_for_write,
        parsed.source_schema_version == Some(settings.schema_version as u64),
{
    broadcast use vstd::utf8::group_utf8_lib;

    let (written, document) = choose|written: Seq<char>, document: JsonValue|
        #![trigger vstd::utf8::encode_utf8(written + "\n"@), holds_settings(document, settings)]
        holds_settings(document, settings) && bytes == vstd::utf8::encode_utf8(written + "\n"@)
            && crate::json::json_document(written + "\n"@) == Some(document);
    assert(vstd::utf8::decode_utf8(vstd::utf8::encode_utf8(text)) == text);
    assert(vstd::utf8::decode_utf8(vstd::utf8::encode_utf8(written + "\n"@)) == written + "\n"@);
    assert(text == written + "\n"@);
    assert(crate::json::spec_as_object(document) == Some(document_root(document)));
}

/// Any text that `serde_json` reads as a document holding valid settings (the native
/// document of [`settings_document`], written compactly or pretty-printed, with any spacing)
/// parses back as those settings, with nothing repaired.
pub proof fn lemma_settings_document_text_reads_back(
    settings: AppSettings,
    text: Seq<char>,
    document: JsonValue,
    parsed: ParsedSettings,
)
    requires
        settings_valid(settings),
        holds_settings(document, settings),
        crate::json::json_document(text) == Some(document),
        parsed_from(parsed, crate::json::json_document(text)),
    ensures
        parsed.settings == settings,
        parsed.repaired_fields@.len() == 0,
        parsed.valid_json,
        parsed.compatible_for_write,
        parsed.source_schema_version == Some(settings.schema_version as u64),
{
    assert(crate::json::spec_as_object(document) == Some(document_root(document)));
}

} // verus!
