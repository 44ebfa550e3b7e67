//! The diagnostics summary that a user copies into a bug report: what it tells of a session,
//! and the JSON document it is written as.

use vstd::prelude::*;
use crate::appearance::{OverlayShape, PreviewFitMode};
use crate::camera::VideoFrame;
use crate::json::{JsonNumber, JsonValue};
use crate::presentation::DisplayEnvironment;
use crate::profile::NativeProfile;
use crate::settings::CameraResolution;
use crate::state::{AppState, CameraStatus};
use crate::FrameSourceKind;

verus! {

/// The text given in place of the summary when it cannot be written as JSON.
pub const DIAGNOSTICS_UNAVAILABLE: &'static str = "{\"schemaVersion\":1,\"status\":\"unavailable\"}";

/// What a diagnostics summary tells of a session. It has no place for camera identifiers or
/// names, frame pixels or profile paths.
#[derive(Debug, Clone)]
pub struct DiagnosticsReport {
    /// Stable description of where the profile came from.
    pub profile_origin: &'static str,
    /// Whether settings changes are written back to the profile.
    pub profile_writable: bool,
    /// The frame producer selected at startup.
    pub frame_source: FrameSourceKind,
    /// Current camera state.
    pub camera_status: CameraStatus,
    /// Requested capture rate in frames per second.
    pub requested_fps: u8,
    /// Requested capture resolution.
    pub requested_resolution: CameraResolution,
    /// Width and height of the frame on screen, if there is one.
    pub active_resolution: Option<(u32, u32)>,
    /// Number of enumerated cameras.
    pub device_count: usize,
    /// Whether a camera is requested from the backend.
    pub active_device_present: bool,
    /// Frames discarded because the capture slot was occupied.
    pub dropped_frames: u64,
    /// Visible shape.
    pub shape: OverlayShape,
    /// Logical overlay size.
    pub size: u16,
    /// Camera frame fit behavior.
    pub fit: PreviewFitMode,
    /// Ring width in logical pixels.
    pub ring_thickness: u8,
    /// Shape corner radius in logical pixels.
    pub corner_roundness: u8,
}

/// What the running program knows of itself and of the machine it runs on.
#[derive(Debug, Clone)]
pub struct RuntimeFacts {
    /// The program's version.
    pub version: String,
    /// The operating system it was built for, as Rust names it.
    pub platform: String,
    /// The processor architecture it was built for, as Rust names it.
    pub architecture: String,
    /// What the process environment says about the display.
    pub display: DisplayEnvironment,
}

/// The width and height of a frame, if there is one.
pub open spec fn frame_size(frame: Option<VideoFrame>) -> Option<(u32, u32)> {
    match frame {
        Some(f) => Some((f.width, f.height)),
        None => None,
    }
}

/// What the summary tells of a session: its profile's origin and writability, the frame
/// source, the camera state and request, the size of the frame on screen, how many cameras
/// there are and whether one is requested, the frames dropped so far (none without a camera
/// worker) and the overlay's appearance.
pub open spec fn spec_diagnostics_report(
    state: AppState,
    profile: NativeProfile,
    frame_source: FrameSourceKind,
    frame: Option<VideoFrame>,
    dropped_frames: Option<u64>,
) -> DiagnosticsReport {
    DiagnosticsReport {
        profile_origin: profile.origin,
        profile_writable: profile.writable,
        frame_source,
        camera_status: state.camera_status,
        requested_fps: state.settings.camera_fps,
        requested_resolution: state.settings.camera_resolution,
        active_resolution: frame_size(frame),
        device_count: state.cameras.len(),
        active_device_present: state.active_camera_id is Some,
        dropped_frames: match dropped_frames {
            Some(n) => n,
            None => 0,
        },
        shape: state.settings.appearance.shape,
        size: state.settings.appearance.size,
        fit: state.settings.appearance.fit,
        ring_thickness: state.settings.appearance.ring_thickness,
        corner_roundness: state.settings.appearance.corner_roundness,
    }
}

/// Gathers what the summary tells of a session.
pub fn diagnostics_report(
    state: &AppState,
    profile: &NativeProfile,
    frame_source: FrameSourceKind,
    frame: Option<&VideoFrame>,
    dropped_frames: Option<u64>,
) -> (report: DiagnosticsReport)
    ensures
        report == spec_diagnostics_report(
            *state,
            *profile,
            frame_source,
            match frame {
                Some(f) => Some(*f),
                None => None,
            },
            dropped_frames,
        ),
{
    let appearance = &state.settings.appearance;
    DiagnosticsReport {
        profile_origin: profile.origin,
        profile_writable: profile.writable,
        frame_source,
        camera_status: state.camera_status,
        requested_fps: state.settings.camera_fps,
        requested_resolution: state.settings.camera_resolution,
        active_resolution: match frame {
            Some(f) => Some((f.width, f.height)),
            None => None,
        },
        device_count: state.cameras.len(),
        active_device_present: state.active_camera_id.is_some(),
        dropped_frames: match dropped_frames {
            Some(n) => n,
            None => 0,
        },
        shape: appearance.shape,
        size: appearance.size,
        fit: appearance.fit,
        ring_thickness: appearance.ring_thickness,
        corner_roundness: appearance.corner_roundness,
    }
}

/// Diagnostics omit camera identifiers, frame contents and profile paths: two sessions that
/// differ only in their cameras' identifiers and names, the selected camera, the frame's
/// pixels and sequence number, and the profile's settings path and loaded settings give the
/// same report.
pub proof fn lemma_diagnostics_omit_private_data(
    a: AppState,
    b: AppState,
    profile_a: NativeProfile,
    profile_b: NativeProfile,
    frame_source: FrameSourceKind,
    frame_a: Option<VideoFrame>,
    frame_b: Option<VideoFrame>,
    dropped_frames: Option<u64>,
)
    requires
        a.camera_status == b.camera_status,
        a.settings.camera_fps == b.settings.camera_fps,
        a.settings.camera_resolution == b.settings.camera_resolution,
        a.settings.appearance == b.settings.appearance,
        a.cameras.len() == b.cameras.len(),
        a.active_camera_id is Some <==> b.active_camera_id is Some,
        profile_a.origin == profile_b.origin,
        profile_a.writable == profile_b.writable,
        frame_size(frame_a) == frame_size(frame_b),
    ensures
        spec_diagnostics_report(a, profile_a, frame_source, frame_a, dropped_frames)
            == spec_diagnostics_report(b, profile_b, frame_source, frame_b, dropped_frames),
{
}

/// Whether a value is the string `text`.
pub open spec fn is_text(value: JsonValue, text: Seq<char>) -> bool {
    value matches JsonValue::Text(t) && t@ == text
}

/// Whether a value is the non-negative integer `n`.
pub open spec fn is_count(value: JsonValue, n: int) -> bool {
    value matches JsonValue::Number(JsonNumber::PosInt(k)) && k == n
}

/// How a frame size is spelled: width, ` × `, height.
pub open spec fn spec_resolution_text(width: u32, height: u32) -> Seq<char> {
    crate::text::decimal_digits(width as nat) + " × "@ + crate::text::decimal_digits(height as nat)
}

/// How a rate given in tenths is spelled: whole part, `.`, tenths digit.
pub open spec fn spec_tenths_text(tenths: u64) -> Seq<char> {
    crate::text::decimal_digits((tenths / 10) as nat) + "."@ + crate::text::decimal_digits(
        (tenths % 10) as nat,
    )
}

/// The `application` section: the product's name, version and runtime, the platform and
/// architecture, the display protocol and the release channel.
pub open spec fn is_application_section(value: JsonValue, runtime: RuntimeFacts) -> bool {
    &&& value matches JsonValue::Object(m)
    &&& crate::json::member_names(m@) == seq![
        "name"@,
        "version"@,
        "runtime"@,
        "platform"@,
        "architecture"@,
        "displayProtocol"@,
        "releaseChannel"@,
    ]
    &&& is_text(m@[0].1, crate::APP_NAME@)
    &&& is_text(m@[1].1, runtime.version@)
    &&& is_text(m@[2].1, "Rust + Iced 0.14"@)
    &&& is_text(m@[3].1, runtime.platform@)
    &&& is_text(m@[4].1, runtime.architecture@)
    &&& is_text(m@[5].1, crate::presentation::spec_display_protocol(runtime.display))
    &&& is_text(m@[6].1, crate::presentation::spec_release_channel(runtime.version@))
}

/// The `profile` section: the profile's origin and whether it is written back.
pub open spec fn is_profile_section(value: JsonValue, report: DiagnosticsReport) -> bool {
    &&& value matches JsonValue::Object(m)
    &&& crate::json::member_names(m@) == seq!["origin"@, "writable"@]
    &&& is_text(m@[0].1, report.profile_origin@)
    &&& m@[1].1 == JsonValue::Bool(report.profile_writable)
}

/// The `camera` section: source, status, request, the frame on screen, the measured rate
/// (`null` when there is none), the devices and the dropped frames.
pub open spec fn is_camera_section(
    value: JsonValue,
    report: DiagnosticsReport,
    measured_fps_tenths: Option<u64>,
) -> bool {
    &&& value matches JsonValue::Object(m)
    &&& crate::json::member_names(m@) == seq![
        "source"@,
        "status"@,
        "requestedFps"@,
        "requestedResolution"@,
        "activeResolution"@,
        "measuredFps"@,
        "deviceCount"@,
        "activeDevicePresent"@,
        "droppedFrames"@,
    ]
    &&& is_text(m@[0].1, report.frame_source.spelling())
    &&& is_text(m@[1].1, crate::presentation::spec_camera_status_code(report.camera_status))
    &&& is_count(m@[2].1, report.requested_fps as int)
    &&& is_text(m@[3].1, crate::settings::spec_resolution_label(report.requested_resolution)@)
    &&& match report.active_resolution {
        Some((width, height)) => is_text(m@[4].1, spec_resolution_text(width, height)),
        None => m@[4].1 == JsonValue::Null,
    }
    &&& match measured_fps_tenths {
        Some(tenths) => m@[5].1 matches JsonValue::Decimal(d) && d@ == spec_tenths_text(tenths),
        None => m@[5].1 == JsonValue::Null,
    }
    &&& is_count(m@[6].1, report.device_count as int)
    &&& m@[7].1 == JsonValue::Bool(report.active_device_present)
    &&& is_count(m@[8].1, report.dropped_frames as int)
}

/// The `appearance` section: shape, size, fit, ring thickness and corner roundness.
pub open spec fn is_appearance_section(value: JsonValue, report: DiagnosticsReport) -> bool {
    &&& value matches JsonValue::Object(m)
    &&& crate::json::member_names(m@) == seq![
        "shape"@,
        "size"@,
        "fit"@,
        "ringThickness"@,
        "cornerRoundness"@,
    ]
    &&& is_text(m@[0].1, crate::settings::spec_shape_name(report.shape)@)
    &&& is_count(m@[1].1, report.size as int)
    &&& is_text(m@[2].1, crate::settings::spec_fit_name(report.fit)@)
    &&& is_count(m@[3].1, report.ring_thickness as int)
    &&& is_count(m@[4].1, report.corner_roundness as int)
}

/// Whether a document is the summary of a report, on a runtime, with a measured capture rate
/// given in tenths of a frame per second: schema version 1, then the application, profile,
/// camera and appearance sections, in that order.
pub open spec fn is_diagnostics_document(
    document: JsonValue,
    report: DiagnosticsReport,
    runtime: RuntimeFacts,
    measured_fps_tenths: Option<u64>,
) -> bool {
    &&& document matches JsonValue::Object(m)
    &&& crate::json::member_names(m@) == seq![
        "schemaVersion"@,
        "application"@,
        "profile"@,
        "camera"@,
        "appearance"@,
    ]
    &&& is_count(m@[0].1, 1)
    &&& is_application_section(m@[1].1, runtime)
    &&& is_profile_section(m@[2].1, report)
    &&& is_camera_section(m@[3].1, report, measured_fps_tenths)
    &&& is_appearance_section(m@[4].1, report)
}

/// Spells a frame size.
fn resolution_text(width: u32, height: u32) -> (text: String)
    ensures
        text@ == spec_resolution_text(width, height),
{
    let mut text = String::new();
    crate::text::push_decimal(&mut text, width as u64);
    text.append(" × ");
    crate::text::push_decimal(&mut text, height as u64);
    text
}

/// Spells a rate given in tenths.
fn tenths_text(tenths: u64) -> (text: String)
    ensures
        text@ == spec_tenths_text(tenths),
{
    let mut text = String::new();
    crate::text::push_decimal(&mut text, tenths / 10);
    text.append(".");
    crate::text::push_decimal(&mut text, tenths % 10);
    text
}

/// A member whose value is given.
fn value_member(key: &str, value: JsonValue) -> (m: (String, JsonValue))
    ensures
        m.0@ == key@,
        m.1 == value,
{
    (String::from_str(key), value)
}

/// Whether every member value of an object holds no float read from a document.
proof fn lemma_members_have_no_float(value: JsonValue)
    requires
        value matches JsonValue::Object(m) && forall|i: int|
            0 <= i < m.len() ==> crate::json::has_no_float(#[trigger] m@[i].1),
    ensures
        crate::json::has_no_float(value),
{
}

/// Builds the `application` section.
fn application_section(runtime: &RuntimeFacts) -> (section: JsonValue)
    ensures
        is_application_section(section, *runtime),
        crate::json::has_no_float(section),
{
    let protocol = crate::presentation::display_protocol(runtime.display);
    let channel = crate::presentation::release_channel(runtime.version.as_str());
    let members: Vec<(String, JsonValue)> = vec![
        crate::settings::text_member("name", crate::APP_NAME),
        crate::settings::text_member("version", runtime.version.as_str()),
        crate::settings::text_member("runtime", "Rust + Iced 0.14"),
        crate::settings::text_member("platform", runtime.platform.as_str()),
        crate::settings::text_member("architecture", runtime.architecture.as_str()),
        crate::settings::text_member("displayProtocol", protocol),
        crate::settings::text_member("releaseChannel", channel),
    ];
    proof {
        assert(crate::json::member_names(members@) =~= seq![
            "name"@,
            "version"@,
            "runtime"@,
            "platform"@,
            "architecture"@,
            "displayProtocol"@,
            "releaseChannel"@,
        ]);
        lemma_members_have_no_float(JsonValue::Object(members));
    }
    JsonValue::Object(members)
}

/// Builds the `profile` section.
fn profile_section(report: &DiagnosticsReport) -> (section: JsonValue)
    ensures
        is_profile_section(section, *report),
        crate::json::has_no_float(section),
{
    let members: Vec<(String, JsonValue)> = vec![
        crate::settings::text_member("origin", report.profile_origin),
        value_member("writable", JsonValue::Bool(report.profile_writable)),
    ];
    proof {
        assert(crate::json::member_names(members@) =~= seq!["origin"@, "writable"@]);
        lemma_members_have_no_float(JsonValue::Object(members));
    }
    JsonValue::Object(members)
}

/// Builds the `camera` section.
fn camera_section(report: &DiagnosticsReport, measured_fps_tenths: Option<u64>) -> (section:
    JsonValue)
    ensures
        is_camera_section(section, *report, measured_fps_tenths),
        crate::json::has_no_float(section),
{
    let active = match report.active_resolution {
        Some((width, height)) => JsonValue::Text(resolution_text(width, height)),
        None => JsonValue::Null,
    };
    let measured = match measured_fps_tenths {
        Some(tenths) => JsonValue::Decimal(tenths_text(tenths)),
        None => JsonValue::Null,
    };
    let members: Vec<(String, JsonValue)> = vec![
        crate::settings::text_member("source", report.frame_source.as_str()),
        crate::settings::text_member(
            "status",
            crate::presentation::camera_status_code(report.camera_status),
        ),
        crate::settings::count_member("requestedFps", report.requested_fps as u64),
        crate::settings::text_member("requestedResolution", report.requested_resolution.label()),
        value_member("activeResolution", active),
        value_member("measuredFps", measured),
        crate::settings::count_member("deviceCount", report.device_count as u64),
        value_member("activeDevicePresent", JsonValue::Bool(report.active_device_present)),
        crate::settings::count_member("droppedFrames", report.dropped_frames),
    ];
    proof {
        assert(crate::json::member_names(members@) =~= seq![
            "source"@,
            "status"@,
            "requestedFps"@,
            "requestedResolution"@,
            "activeResolution"@,
            "measuredFps"@,
            "deviceCount"@,
            "activeDevicePresent"@,
            "droppedFrames"@,
        ]);
        lemma_members_have_no_float(JsonValue::Object(members));
    }
    JsonValue::Object(members)
}

/// Builds the `appearance` section.
fn appearance_section(report: &DiagnosticsReport) -> (section: JsonValue)
    ensures
        is_appearance_section(section, *report),
        crate::json::has_no_float(section),
{
    let members: Vec<(String, JsonValue)> = vec![
        crate::settings::text_member("shape", crate::settings::shape_name(report.shape)),
        crate::settings::count_member("size", report.size as u64),
        crate::settings::text_member("fit", crate::settings::fit_name(report.fit)),
        crate::settings::count_member("ringThickness", report.ring_thickness as u64),
        crate::settings::count_member("cornerRoundness", report.corner_roundness as u64),
    ];
    proof {
        assert(crate::json::member_names(members@) =~= seq![
            "shape"@,
            "size"@,
            "fit"@,
            "ringThickness"@,
            "cornerRoundness"@,
        ]);
        lemma_members_have_no_float(JsonValue::Object(members));
    }
    JsonValue::Object(members)
}

/// Builds the summary document of a report, on a runtime, with the measured capture rate in
/// tenths of a frame per second (`None` before two frames have arrived).
pub fn diagnostics_document(
    report: &DiagnosticsReport,
    runtime: &RuntimeFacts,
    measured_fps_tenths: Option<u64>,
) -> (document: JsonValue)
    ensures
        is_diagnostics_document(document, *report, *runtime, measured_fps_tenths),
        crate::json::has_no_float(document),
{
    let members: Vec<(String, JsonValue)> = vec![
        crate::settings::count_member("schemaVersion", 1),
        value_member("application", application_section(runtime)),
        value_member("profile", profile_section(report)),
        value_member("camera", camera_section(report, measured_fps_tenths)),
        value_member("appearance", appearance_section(report)),
    ];
    proof {
        assert(crate::json::member_names(members@) =~= seq![
            "schemaVersion"@,
            "application"@,
            "profile"@,
            "camera"@,
            "appearance"@,
        ]);
        lemma_members_have_no_float(JsonValue::Object(members));
    }
    JsonValue::Object(members)
}

/// Whether `text` is the summary of a report written out: the pretty-printed JSON of its
/// document, or the fixed unavailable notice when `serde_json` cannot write that document.
pub open spec fn is_diagnostics_text(
    text: Seq<u8>,
    report: DiagnosticsReport,
    runtime: RuntimeFacts,
    measured_fps_tenths: Option<u64>,
) -> bool {
    exists|document: JsonValue|
        #[trigger] is_diagnostics_document(document, report, runtime, measured_fps_tenths)
            && match crate::json::json_pretty_text(document) {
            Some(t) => text == t,
            None => text == vstd::utf8::encode_utf8(DIAGNOSTICS_UNAVAILABLE@),
        }
}

/// Writes the summary as pretty-printed JSON, or the fixed unavailable notice when
/// `serde_json` cannot write it.
pub fn diagnostics_json(
    report: &DiagnosticsReport,
    runtime: &RuntimeFacts,
    measured_fps_tenths: Option<u64>,
) -> (text: Vec<u8>)
    ensures
        is_diagnostics_text(text@, *report, *runtime, measured_fps_tenths),
        exists|document: JsonValue|
            #[trigger] is_diagnostics_document(document, *report, *runtime, measured_fps_tenths)
                && crate::json::json_pretty_text(document) == Some(text@),
{
    let document = diagnostics_document(report, runtime, measured_fps_tenths);
    let text = match crate::json::write_json_pretty(&document) {
        Some(text) => text,
        None => vstd::slice::slice_to_vec(DIAGNOSTICS_UNAVAILABLE.as_bytes()),
    };
    assert(is_diagnostics_document(document, *report, *runtime, measured_fps_tenths));
    text
}

/// Diagnostics omit camera identifiers, frame contents and profile paths, down to the written
/// text: for two sessions that differ only in their cameras' identifiers and names, the
/// selected camera, the frame's pixels and sequence number, and the profile's settings path
/// and loaded settings, on the same runtime and with the same measured rate, a document is
/// the summary of the one exactly when it is the summary of the other, and so is a text.
pub proof fn lemma_diagnostics_text_omits_private_data(
    a: AppState,
    b: AppState,
    profile_a: NativeProfile,
    profile_b: NativeProfile,
    frame_source: FrameSourceKind,
    frame_a: Option<VideoFrame>,
    frame_b: Option<VideoFrame>,
    dropped_frames: Option<u64>,
    runtime: RuntimeFacts,
    measured_fps_tenths: Option<u64>,
    document: JsonValue,
    text: Seq<u8>,
)
    requires
        a.camera_status == b.camera_status,
        a.settings.camera_fps == b.settings.camera_fps,
        a.settings.camera_resolution == b.settings.camera_resolution,
        a.settings.appearance == b.settings.appearance,
        a.cameras.len() == b.cameras.len(),
        a.active_camera_id is Some <==> b.active_camera_id is Some,
        profile_a.origin == profile_b.origin,
        profile_a.writable == profile_b.writable,
        frame_size(frame_a) == frame_size(frame_b),
    ensures
        is_diagnostics_document(
            document,
            spec_diagnostics_report(a, profile_a, frame_source, frame_a, dropped_frames),
            runtime,
            measured_fps_tenths,
        ) <==> is_diagnostics_document(
            document,
            spec_diagnostics_report(b, profile_b, frame_source, frame_b, dropped_frames),
            runtime,
            measured_fps_tenths,
        ),
        is_diagnostics_text(
            text,
            spec_diagnostics_report(a, profile_a, frame_source, frame_a, dropped_frames),
            runtime,
            measured_fps_tenths,
        ) <==> is_diagnostics_text(
            text,
            spec_diagnostics_report(b, profile_b, frame_source, frame_b, dropped_frames),
            runtime,
            measured_fps_tenths,
        ),
{
    lemma_diagnostics_omit_private_data(
        a,
        b,
        profile_a,
        profile_b,
        frame_source,
        frame_a,
        frame_b,
        dropped_frames,
    );
}

} // verus!
