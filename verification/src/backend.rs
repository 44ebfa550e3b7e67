//! Rules that sit between a native camera backend and the rest of the application: how
//! transient failures are tolerated, which capture format is negotiated, how backend messages
//! are classified and how enumerated devices are listed.

use vstd::prelude::*;
use crate::camera::{CameraDevice, CameraError, CaptureRequest};
use crate::text::{chars_of, contains_chars};

verus! {

broadcast use vstd::string::group_string_axioms;

/// Consecutive transient frame errors that a healthy stream survives.
pub const TRANSIENT_FRAME_ERROR_LIMIT: u8 = 3;

/// Records one frame error. Busy and backend errors are forgiven until more than
/// [`TRANSIENT_FRAME_ERROR_LIMIT`] arrive in a row; any other error ends the stream at once and
/// leaves the counter alone.
pub fn tolerate_transient_frame_error(consecutive_errors: &mut u8, error: CameraError) -> (result:
    Result<(), CameraError>)
    ensures
        !crate::camera::is_transient(error) ==> *final(consecutive_errors) == *old(consecutive_errors) && result
            == Err::<(), CameraError>(error),
        crate::camera::is_transient(error) ==> *final(consecutive_errors) == (if *old(consecutive_errors) == u8::MAX {
            u8::MAX as int
        } else {
            *old(consecutive_errors) + 1
        }),
        crate::camera::is_transient(error) ==> result == (if *final(consecutive_errors) <= TRANSIENT_FRAME_ERROR_LIMIT {
            Ok::<(), CameraError>(())
        } else {
            Err(error)
        }),
{
    if !(error == CameraError::Busy || error == CameraError::Backend) {
        return Err(error);
    }
    *consecutive_errors = consecutive_errors.saturating_add(1);
    if *consecutive_errors <= TRANSIENT_FRAME_ERROR_LIMIT {
        Ok(())
    } else {
        Err(error)
    }
}

/// The stable code of an error category, as written to diagnostics.
pub open spec fn spec_camera_error_code(error: CameraError) -> Seq<char> {
    match error {
        CameraError::PermissionDenied => "permission-denied"@,
        CameraError::DeviceNotFound => "device-not-found"@,
        CameraError::Busy => "busy"@,
        CameraError::Backend => "backend"@,
    }
}

/// The stable code of an error category, as written to diagnostics.
pub fn camera_error_code(error: CameraError) -> (code: &'static str)
    ensures
        code@ == spec_camera_error_code(error),
{
    match error {
        CameraError::PermissionDenied => "permission-denied",
        CameraError::DeviceNotFound => "device-not-found",
        CameraError::Busy => "busy",
        CameraError::Backend => "backend",
    }
}

/// Frames per second asked of the backend: one second divided by the requested interval,
/// clamped to 1..=240.
pub open spec fn spec_requested_fps(request: CaptureRequest) -> int {
    let fps = 1_000_000_000int / request.frame_interval_nanos as int;
    if fps < 1 {
        1
    } else if fps > 240 {
        240
    } else {
        fps
    }
}

/// Frames per second asked of the backend for a request with a nonzero interval.
pub fn requested_fps(request: CaptureRequest) -> (fps: u32)
    requires
        request.frame_interval_nanos > 0,
    ensures
        fps == spec_requested_fps(request),
{
    let fps = 1_000_000_000u64 / request.frame_interval_nanos;
    if fps < 1 {
        1
    } else if fps > 240 {
        240
    } else {
        fps as u32
    }
}

/// Pixel encodings that a camera can deliver.
#[derive(Debug, Clone, Copy, PartialEq, Eq, Structural, Hash)]
pub enum FrameFormat {
    /// Motion JPEG.
    MJPEG,
    /// Packed YUV 4:2:2.
    YUYV,
    /// Planar YUV 4:2:0.
    NV12,
    /// Grayscale.
    GRAY,
    /// Packed RGB.
    RAWRGB,
    /// Packed BGR.
    RAWBGR,
}

/// Whether the RGBA decoder accepts the encoding: every color encoding, not grayscale.
pub open spec fn decodes_to_rgba(format: FrameFormat) -> bool {
    format != FrameFormat::GRAY
}

/// How much an encoding is preferred when all else is equal; lower is better.
pub open spec fn spec_frame_format_preference(format: FrameFormat) -> u8 {
    match format {
        FrameFormat::NV12 => 0,
        FrameFormat::YUYV => 1,
        FrameFormat::MJPEG => 2,
        FrameFormat::RAWRGB | FrameFormat::RAWBGR => 3,
        FrameFormat::GRAY => 4,
    }
}

/// How much an encoding is preferred when all else is equal; lower is better.
pub fn frame_format_preference(format: FrameFormat) -> (rank: u8)
    ensures
        rank == spec_frame_format_preference(format),
{
    match format {
        FrameFormat::NV12 => 0,
        FrameFormat::YUYV => 1,
        FrameFormat::MJPEG => 2,
        FrameFormat::RAWRGB | FrameFormat::RAWBGR => 3,
        FrameFormat::GRAY => 4,
    }
}

fn decodes_rgba(format: FrameFormat) -> (accepted: bool)
    ensures
        accepted == decodes_to_rgba(format),
{
    match format {
        FrameFormat::GRAY => false,
        _ => true,
    }
}

/// One capture mode that a camera offers.
#[derive(Debug, Clone, Copy, PartialEq, Eq, Structural, Hash)]
pub struct CameraFormat {
    /// Frame width in pixels.
    pub width: u32,
    /// Frame height in pixels.
    pub height: u32,
    /// Pixel encoding.
    pub format: FrameFormat,
    /// Frames per second.
    pub frame_rate: u32,
}

/// The squared distance between a mode's resolution and the requested one.
pub open spec fn resolution_error(format: CameraFormat, request: CaptureRequest) -> int {
    let dw = format.width - request.width;
    let dh = format.height - request.height;
    dw * dw + dh * dh
}

/// How far a mode's frame rate is from the requested one.
pub open spec fn frame_rate_error(format: CameraFormat, request: CaptureRequest) -> int {
    let difference = format.frame_rate - spec_requested_fps(request);
    if difference < 0 {
        -difference
    } else {
        difference
    }
}

/// Whether mode `a` fits the request strictly better than mode `b`: by resolution first, then
/// frame rate, then encoding preference.
pub open spec fn fits_better(request: CaptureRequest, a: CameraFormat, b: CameraFormat) -> bool {
    let (ra, rb) = (resolution_error(a, request), resolution_error(b, request));
    let (fa, fb) = (frame_rate_error(a, request), frame_rate_error(b, request));
    let (pa, pb) = (
        spec_frame_format_preference(a.format),
        spec_frame_format_preference(b.format),
    );
    ra < rb || (ra == rb && (fa < fb || (fa == fb && pa < pb)))
}

/// Whether `formats[i]` is the mode that negotiation picks: a color mode that no color mode fits
/// better, and the first of those.
pub open spec fn is_chosen_format(formats: Seq<CameraFormat>, request: CaptureRequest, i: int) -> bool {
    &&& 0 <= i < formats.len()
    &&& decodes_to_rgba(formats[i].format)
    &&& forall|j: int|
        0 <= j < formats.len() && decodes_to_rgba(formats[j].format) ==> !fits_better(
            request,
            #[trigger] formats[j],
            formats[i],
        )
    &&& forall|j: int|
        0 <= j < i && decodes_to_rgba(formats[j].format) ==> fits_better(
            request,
            formats[i],
            #[trigger] formats[j],
        )
}

/// The three numbers by which a mode is ranked, computed without overflow.
fn format_key(format: CameraFormat, request: CaptureRequest, fps: u32) -> (key: (u128, u32, u8))
    requires
        fps == spec_requested_fps(request),
    ensures
        key.0 == resolution_error(format, request),
        key.1 == frame_rate_error(format, request),
        key.2 == spec_frame_format_preference(format.format),
{
    let dw: u128 = if format.width >= request.width {
        (format.width - request.width) as u128
    } else {
        (request.width - format.width) as u128
    };
    let dh: u128 = if format.height >= request.height {
        (format.height - request.height) as u128
    } else {
        (request.height - format.height) as u128
    };
    assert(dw * dw <= 0xFFFF_FFFFu128 * 0xFFFF_FFFFu128) by (nonlinear_arith)
        requires
            dw <= 0xFFFF_FFFFu128,
    ;
    assert(dh * dh <= 0xFFFF_FFFFu128 * 0xFFFF_FFFFu128) by (nonlinear_arith)
        requires
            dh <= 0xFFFF_FFFFu128,
    ;
    let dw_int: Ghost<int> = Ghost(format.width - request.width);
    let dh_int: Ghost<int> = Ghost(format.height - request.height);
    assert(dw * dw == dw_int@ * dw_int@) by (nonlinear_arith)
        requires
            dw == dw_int@ || dw == -dw_int@,
    ;
    assert(dh * dh == dh_int@ * dh_int@) by (nonlinear_arith)
        requires
            dh == dh_int@ || dh == -dh_int@,
    ;
    let resolution = dw * dw + dh * dh;
    let rate = if format.frame_rate >= fps {
        format.frame_rate - fps
    } else {
        fps - format.frame_rate
    };
    (resolution, rate, frame_format_preference(format.format))
}

fn key_less(a: (u128, u32, u8), b: (u128, u32, u8)) -> (less: bool)
    ensures
        less == (a.0 < b.0 || (a.0 == b.0 && (a.1 < b.1 || (a.1 == b.1 && a.2 < b.2)))),
{
    a.0 < b.0 || (a.0 == b.0 && (a.1 < b.1 || (a.1 == b.1 && a.2 < b.2)))
}

/// Picks the capture mode closest to the request among those the RGBA decoder accepts: the
/// smallest squared resolution distance, then the smallest frame-rate distance, then the
/// preferred encoding; the first such mode wins a tie. `None` when no mode is a color mode.
pub fn choose_camera_format(formats: &Vec<CameraFormat>, request: CaptureRequest) -> (chosen:
    Option<CameraFormat>)
    requires
        request.frame_interval_nanos > 0,
    ensures
        chosen is None <==> forall|j: int|
            0 <= j < formats.len() ==> !decodes_to_rgba(#[trigger] formats@[j].format),
        chosen matches Some(format) ==> exists|i: int|
            is_chosen_format(formats@, request, i) && formats@[i] == format,
{
    let fps = requested_fps(request);
    let mut best: Option<usize> = None;
    let mut best_key: (u128, u32, u8) = (0, 0, 0);
    let mut k: usize = 0;
    while k < formats.len()
        invariant
            k <= formats.len(),
            fps == spec_requested_fps(request),
            best is None ==> forall|j: int|
                0 <= j < k ==> !decodes_to_rgba(#[trigger] formats@[j].format),
            best matches Some(i) ==> {
                &&& i < k
                &&& decodes_to_rgba(formats@[i as int].format)
                &&& best_key.0 == resolution_error(formats@[i as int], request)
                &&& best_key.1 == frame_rate_error(formats@[i as int], request)
                &&& best_key.2 == spec_frame_format_preference(formats@[i as int].format)
                &&& forall|j: int|
                    0 <= j < k && decodes_to_rgba(formats@[j].format) ==> !fits_better(
                        request,
                        #[trigger] formats@[j],
                        formats@[i as int],
                    )
                &&& forall|j: int|
                    0 <= j < i && decodes_to_rgba(formats@[j].format) ==> fits_better(
                        request,
                        formats@[i as int],
                        #[trigger] formats@[j],
                    )
            },
        decreases formats.len() - k,
    {
        let candidate = formats[k];
        if decodes_rgba(candidate.format) {
            let key = format_key(candidate, request, fps);
            let replace = match best {
                None => true,
                Some(_) => key_less(key, best_key),
            };
            if replace {
                best = Some(k);
                best_key = key;
            }
        }
        k = k + 1;
    }
    match best {
        None => None,
        Some(i) => {
            assert(is_chosen_format(formats@, request, i as int));
            Some(formats[i])
        },
    }
}

// ---------------------------------------------------------------------------------------------
// udev properties.
// ---------------------------------------------------------------------------------------------

/// The udev property line that lists a video node's capabilities.
pub open spec fn capabilities_prefix() -> Seq<char> {
    "E:ID_V4L_CAPABILITIES="@
}

/// Whether a line of `s` starts at position `p`.
pub open spec fn starts_line(s: Seq<char>, p: int) -> bool {
    p == 0 || (0 < p <= s.len() && s[p - 1] == '\n')
}

/// The end of the line that contains position `p`: the next line feed, or the end of `s`.
pub open spec fn line_end(s: Seq<char>, p: int) -> int
    decreases s.len() - p,
{
    if p < 0 || p >= s.len() {
        s.len() as int
    } else if s[p] == '\n' {
        p
    } else {
        line_end(s, p + 1)
    }
}

/// The first position at or after `from` where a capabilities line starts.
pub open spec fn first_capabilities_line(s: Seq<char>, from: int) -> Option<int>
    decreases s.len() - from,
{
    if from < 0 || from >= s.len() {
        None
    } else if starts_line(s, from) && crate::text::occurs_at(s, capabilities_prefix(), from) {
        Some(from)
    } else {
        first_capabilities_line(s, from + 1)
    }
}

/// What udev properties say of a video node: `None` without a capabilities line, else whether
/// the first such line lists single- or multi-planar capture.
pub open spec fn spec_udev_capture_capability(s: Seq<char>) -> Option<bool> {
    match first_capabilities_line(s, 0) {
        None => None,
        Some(p) => {
            let start = p + capabilities_prefix().len();
            let capabilities = s.subrange(start, line_end(s, start));
            Some(
                crate::text::text_contains(capabilities, ":capture:"@) || crate::text::text_contains(
                    capabilities,
                    ":capture_mplane:"@,
                ),
            )
        },
    }
}

/// Copies `v[start..end]`.
fn copy_range(v: &Vec<char>, start: usize, end: usize) -> (out: Vec<char>)
    requires
        start <= end <= v.len(),
    ensures
        out@ == v@.subrange(start as int, end as int),
{
    let mut out: Vec<char> = Vec::new();
    let mut i: usize = start;
    while i < end
        invariant
            start <= i <= end <= v.len(),
            out@ == v@.subrange(start as int, i as int),
        decreases end - i,
    {
        out.push(v[i]);
        assert(out@ =~= v@.subrange(start as int, i + 1));
        i = i + 1;
    }
    out
}

/// Reads the capture capability of a video node from its udev properties (one `KEY=value`
/// per line). A carriage return before a line feed cannot change the answer: neither the
/// prefix nor the capability names contain one.
pub fn udev_capture_capability(properties: &str) -> (capability: Option<bool>)
    ensures
        capability == spec_udev_capture_capability(properties@),
{
    let s = chars_of(properties);
    let prefix = chars_of("E:ID_V4L_CAPABILITIES=");
    let length = s.len();
    let mut p: usize = 0;
    while p < length
        invariant
            s@ == properties@,
            prefix@ == capabilities_prefix(),
            length == s.len(),
            p <= length,
            first_capabilities_line(s@, 0) == first_capabilities_line(s@, p as int),
        decreases length - p,
    {
        let at_line_start = p == 0 || s[p - 1] == '\n';
        if at_line_start && prefix.len() <= length - p && crate::text::matches_at(&s, &prefix, p) {
            let start = p + prefix.len();
            let mut end = start;
            while end < length && s[end] != '\n'
                invariant
                    start <= end <= length,
                    length == s.len(),
                    line_end(s@, start as int) == line_end(s@, end as int),
                decreases length - end,
            {
                end = end + 1;
            }
            let capabilities = copy_range(&s, start, end);
            let capture = chars_of(":capture:");
            let multiplanar = chars_of(":capture_mplane:");
            return Some(contains_chars(&capabilities, &capture) || contains_chars(&capabilities, &multiplanar));
        }
        p = p + 1;
    }
    None
}

// ---------------------------------------------------------------------------------------------
// Backend error messages.
// ---------------------------------------------------------------------------------------------

/// What `str::to_lowercase` gives for a text: the Unicode lower-case mapping of each character.
pub uninterp spec fn lowercase(text: Seq<char>) -> Seq<char>;

/// Calls `str::to_lowercase`. Its result depends on the text alone (no locale is consulted),
/// and is named by [`lowercase`]; nothing more is claimed of it.
#[verifier::external_body]
fn to_lowercase(text: &str) -> (lower: String)
    ensures
        lower@ == lowercase(text@),
{
    text.to_lowercase()
}

/// The category of a backend failure, from its lower-case message: access problems first,
/// then contention, then missing devices; anything else is a backend failure.
pub open spec fn spec_classify_lowercase_message(message: Seq<char>) -> CameraError {
    if crate::text::text_contains(message, "permission"@) || crate::text::text_contains(message, "access denied"@)
        || crate::text::text_contains(message, "not authorized"@) {
        CameraError::PermissionDenied
    } else if crate::text::text_contains(message, "busy"@) || crate::text::text_contains(message, "in use"@)
        || crate::text::text_contains(message, "resource temporarily unavailable"@) {
        CameraError::Busy
    } else if crate::text::text_contains(message, "not found"@) || crate::text::text_contains(message, "no device"@)
        || crate::text::text_contains(message, "no such"@) {
        CameraError::DeviceNotFound
    } else {
        CameraError::Backend
    }
}

fn mentions(message: &Vec<char>, phrase: &str) -> (found: bool)
    ensures
        found == crate::text::text_contains(message@, phrase@),
{
    let needle = chars_of(phrase);
    contains_chars(message, &needle)
}

/// Classifies a message that is already in lower case.
pub fn classify_lowercase_message(message: &str) -> (category: CameraError)
    ensures
        category == spec_classify_lowercase_message(message@),
{
    let m = chars_of(message);
    if mentions(&m, "permission") || mentions(&m, "access denied") || mentions(&m, "not authorized") {
        CameraError::PermissionDenied
    } else if mentions(&m, "busy") || mentions(&m, "in use") || mentions(
        &m,
        "resource temporarily unavailable",
    ) {
        CameraError::Busy
    } else if mentions(&m, "not found") || mentions(&m, "no device") || mentions(&m, "no such") {
        CameraError::DeviceNotFound
    } else {
        CameraError::Backend
    }
}

/// Maps the text of a backend error to a stable category without keeping any of it, so that
/// device identifiers in the message never reach diagnostics.
pub fn classify_backend_message(message: &str) -> (category: CameraError)
    ensures
        category == spec_classify_lowercase_message(lowercase(message@)),
{
    let lower = to_lowercase(message);
    classify_lowercase_message(lower.as_str())
}

// ---------------------------------------------------------------------------------------------
// Device inventory.
// ---------------------------------------------------------------------------------------------

/// How a backend addresses a camera: by number, or by a string such as a URL.
#[derive(Debug, Clone, PartialEq, Eq, Hash)]
pub enum CameraIndex {
    /// A numbered device.
    Index(u32),
    /// A device addressed by text.
    String(String),
}

/// What a backend reports of one enumerated camera.
#[derive(Debug, Clone, PartialEq, Eq)]
pub struct CameraInfo {
    /// Name meant for people; may be blank.
    pub human_name: String,
    /// Backend description.
    pub description: String,
    /// Backend-specific stable identifier; may be blank.
    pub misc: String,
    /// The address used to open the device.
    pub index: CameraIndex,
}

impl CameraInfo {
    /// Bundles what a backend reports of one camera.
    pub fn new(human_name: &str, description: &str, misc: &str, index: CameraIndex) -> (info:
        CameraInfo)
        ensures
            info.human_name@ == human_name@,
            info.description@ == description@,
            info.misc@ == misc@,
            info.index == index,
    {
        CameraInfo {
            human_name: human_name.to_owned(),
            description: description.to_owned(),
            misc: misc.to_owned(),
            index,
        }
    }
}

/// An enumerated camera: what the menu shows, and the address that opens it again.
#[derive(Debug, Clone, PartialEq, Eq)]
pub struct CachedCameraDevice {
    /// The identity and label shown to the user.
    pub public: CameraDevice,
    /// The backend address of the device.
    pub index: CameraIndex,
}

/// The text of an address: the decimal number, or the string itself.
pub open spec fn index_text(index: CameraIndex) -> Seq<char> {
    match index {
        CameraIndex::Index(n) => crate::text::decimal_digits(n as nat),
        CameraIndex::String(s) => s@,
    }
}

/// Whether `a` comes before `b` in the character order, compared from position `i` on.
pub open spec fn chars_before_from(a: Seq<char>, b: Seq<char>, i: int) -> bool
    decreases a.len() - i,
{
    if i < 0 || i >= a.len() {
        0 <= i < b.len()
    } else if i >= b.len() {
        false
    } else if a[i] != b[i] {
        a[i] < b[i]
    } else {
        chars_before_from(a, b, i + 1)
    }
}

/// Lexicographic order of texts by code point. UTF-8 keeps code point order, so this is the
/// order of `String` too.
pub open spec fn chars_before(a: Seq<char>, b: Seq<char>) -> bool {
    chars_before_from(a, b, 0)
}

/// The order of addresses: numbers by value, all before strings, strings lexicographically.
pub open spec fn index_before(a: CameraIndex, b: CameraIndex) -> bool {
    match (a, b) {
        (CameraIndex::Index(x), CameraIndex::Index(y)) => x < y,
        (CameraIndex::Index(_), CameraIndex::String(_)) => true,
        (CameraIndex::String(_), CameraIndex::Index(_)) => false,
        (CameraIndex::String(x), CameraIndex::String(y)) => chars_before(x@, y@),
    }
}

fn chars_in_order(a: &Vec<char>, b: &Vec<char>) -> (before: bool)
    ensures
        before == chars_before(a@, b@),
{
    let mut i: usize = 0;
    while i < a.len() && i < b.len() && a[i] == b[i]
        invariant
            i <= a.len(),
            i <= b.len(),
            chars_before(a@, b@) == chars_before_from(a@, b@, i as int),
        decreases a.len() - i,
    {
        i = i + 1;
    }
    if i >= a.len() {
        i < b.len()
    } else if i >= b.len() {
        false
    } else {
        a[i] < b[i]
    }
}

fn index_in_order(a: &CameraIndex, b: &CameraIndex) -> (before: bool)
    ensures
        before == index_before(*a, *b),
{
    match (a, b) {
        (CameraIndex::Index(x), CameraIndex::Index(y)) => *x < *y,
        (CameraIndex::Index(_), CameraIndex::String(_)) => true,
        (CameraIndex::String(_), CameraIndex::Index(_)) => false,
        (CameraIndex::String(x), CameraIndex::String(y)) => {
            let left = chars_of(x.as_str());
            let right = chars_of(y.as_str());
            chars_in_order(&left, &right)
        },
    }
}

/// `sorted` with `device` placed after every device whose address does not come after its own.
pub open spec fn insert_by_index(sorted: Seq<CameraInfo>, device: CameraInfo) -> Seq<CameraInfo>
    decreases sorted.len(),
{
    if sorted.len() == 0 {
        seq![device]
    } else if index_before(device.index, sorted.last().index) {
        insert_by_index(sorted.drop_last(), device).push(sorted.last())
    } else {
        sorted.push(device)
    }
}

/// The devices ordered by address; devices with equal addresses keep their relative order.
pub open spec fn sort_by_index(devices: Seq<CameraInfo>) -> Seq<CameraInfo>
    decreases devices.len(),
{
    if devices.len() == 0 {
        devices
    } else {
        insert_by_index(sort_by_index(devices.drop_last()), devices.last())
    }
}

/// The devices whose capture flag is set, in their original order.
pub open spec fn capture_only(devices: Seq<CameraInfo>, capture: Seq<bool>) -> Seq<CameraInfo>
    decreases devices.len(),
{
    if devices.len() == 0 || capture.len() != devices.len() {
        Seq::empty()
    } else {
        let rest = capture_only(devices.drop_last(), capture.drop_last());
        if capture.last() {
            rest.push(devices.last())
        } else {
            rest
        }
    }
}

/// The identifier a device keeps across sessions: the backend's stable identifier unless it
/// is blank, else the text of its address.
pub open spec fn spec_stable_device_id(device: CameraInfo) -> Seq<char> {
    if crate::text::spec_trim(device.misc@).len() == 0 {
        index_text(device.index)
    } else {
        device.misc@
    }
}

/// The label of the device at `position` in the list: its human name unless blank, else
/// `Camera N` counting from one.
pub open spec fn spec_device_label(device: CameraInfo, position: int) -> Seq<char> {
    if crate::text::spec_trim(device.human_name@).len() == 0 {
        "Camera "@ + crate::text::decimal_digits((position + 1) as nat)
    } else {
        device.human_name@
    }
}

/// Whether `cached` lists `devices` as the inventory shows them.
pub open spec fn lists_inventory(cached: Seq<CachedCameraDevice>, devices: Seq<CameraInfo>) -> bool {
    &&& cached.len() == devices.len()
    &&& forall|i: int|
        0 <= i < cached.len() ==> {
            &&& (#[trigger] cached[i]).public.id@ == spec_stable_device_id(devices[i])
            &&& cached[i].public.label@ == spec_device_label(devices[i], i)
            &&& cached[i].index == devices[i].index
        }
}

fn is_blank(text: &String) -> (blank: bool)
    ensures
        blank == (crate::text::spec_trim(text@).len() == 0),
{
    let chars = chars_of(text.as_str());
    let (start, end) = crate::text::trim_range(&chars);
    start == end
}

fn copy_index(index: &CameraIndex) -> (copy: CameraIndex)
    ensures
        copy == *index,
{
    match index {
        CameraIndex::Index(n) => CameraIndex::Index(*n),
        CameraIndex::String(s) => CameraIndex::String(s.clone()),
    }
}

fn copy_info(device: &CameraInfo) -> (copy: CameraInfo)
    ensures
        copy == *device,
{
    CameraInfo {
        human_name: device.human_name.clone(),
        description: device.description.clone(),
        misc: device.misc.clone(),
        index: copy_index(&device.index),
    }
}

/// The text of an address.
fn index_string(index: &CameraIndex) -> (text: String)
    ensures
        text@ == index_text(*index),
{
    match index {
        CameraIndex::Index(n) => {
            let mut out = String::new();
            crate::text::push_decimal(&mut out, *n as u64);
            out
        },
        CameraIndex::String(s) => s.clone(),
    }
}

/// The identifier a device keeps across sessions.
pub fn stable_device_id(device: &CameraInfo) -> (id: String)
    ensures
        id@ == spec_stable_device_id(*device),
{
    if is_blank(&device.misc) {
        index_string(&device.index)
    } else {
        device.misc.clone()
    }
}

proof fn lemma_insert_at(sorted: Seq<CameraInfo>, device: CameraInfo, position: int)
    requires
        0 <= position <= sorted.len(),
        forall|q: int| position <= q < sorted.len() ==> index_before(device.index, #[trigger] sorted[q].index),
        position == 0 || !index_before(device.index, sorted[position - 1].index),
    ensures
        insert_by_index(sorted, device) == sorted.insert(position, device),
    decreases sorted.len(),
{
    if sorted.len() == 0 {
        assert(sorted.insert(position, device) =~= seq![device]);
    } else if position == sorted.len() {
        assert(sorted.insert(position, device) =~= sorted.push(device));
    } else {
        let shorter = sorted.drop_last();
        assert forall|q: int| position <= q < shorter.len() implies index_before(
            device.index,
            #[trigger] shorter[q].index,
        ) by {
            assert(shorter[q] == sorted[q]);
        }
        lemma_insert_at(shorter, device, position);
        assert(shorter.insert(position, device).push(sorted.last()) =~= sorted.insert(position, device));
    }
}

/// Whether devices are ordered by address: none comes before an earlier one.
pub open spec fn index_sorted(devices: Seq<CameraInfo>) -> bool {
    forall|i: int, j: int|
        0 <= i < j < devices.len() ==> !index_before(
            #[trigger] devices[j].index,
            #[trigger] devices[i].index,
        )
}

proof fn lemma_chars_before_asymmetric(a: Seq<char>, b: Seq<char>, i: int)
    requires
        0 <= i,
    ensures
        chars_before_from(a, b, i) ==> !chars_before_from(b, a, i),
    decreases a.len() - i,
{
    if i < a.len() && i < b.len() && a[i] == b[i] {
        lemma_chars_before_asymmetric(a, b, i + 1);
    }
}

proof fn lemma_chars_before_negatively_transitive(a: Seq<char>, b: Seq<char>, c: Seq<char>, i: int)
    requires
        0 <= i,
    ensures
        chars_before_from(a, c, i) ==> chars_before_from(a, b, i) || chars_before_from(b, c, i),
    decreases a.len() - i,
{
    if i < a.len() && i < b.len() && i < c.len() && a[i] == b[i] && b[i] == c[i] {
        lemma_chars_before_negatively_transitive(a, b, c, i + 1);
    }
}

proof fn lemma_index_order(a: CameraIndex, b: CameraIndex, c: CameraIndex)
    ensures
        index_before(a, b) ==> !index_before(b, a),
        index_before(a, c) ==> index_before(a, b) || index_before(b, c),
{
    match (a, b) {
        (CameraIndex::String(x), CameraIndex::String(y)) => {
            lemma_chars_before_asymmetric(x@, y@, 0);
        },
        _ => {},
    }
    match (a, b, c) {
        (CameraIndex::String(x), CameraIndex::String(y), CameraIndex::String(z)) => {
            lemma_chars_before_negatively_transitive(x@, y@, z@, 0);
        },
        _ => {},
    }
}

proof fn lemma_insert_keeps_order(sorted: Seq<CameraInfo>, device: CameraInfo)
    requires
        index_sorted(sorted),
    ensures
        index_sorted(insert_by_index(sorted, device)),
        insert_by_index(sorted, device).to_multiset() == sorted.to_multiset().insert(device),
    decreases sorted.len(),
{
    broadcast use vstd::seq_lib::group_to_multiset_ensures;

    if sorted.len() == 0 {
        assert(seq![device] =~= Seq::<CameraInfo>::empty().push(device));
    } else {
        let last = sorted.last();
        let rest = sorted.drop_last();
        assert(sorted =~= rest.push(last));
        if index_before(device.index, last.index) {
            lemma_insert_keeps_order(rest, device);
            let inserted = insert_by_index(rest, device);
            lemma_index_order(device.index, last.index, last.index);
            assert forall|i: int, j: int|
                0 <= i < j < inserted.push(last).len() implies !index_before(
                #[trigger] inserted.push(last)[j].index,
                #[trigger] inserted.push(last)[i].index,
            ) by {
                if j == inserted.len() {
                    let other = inserted[i];
                    assert(inserted.contains(other));
                    assert(inserted.to_multiset().count(other) > 0);
                    if other != device {
                        assert(rest.to_multiset().count(other) > 0);
                        assert(rest.contains(other));
                        let k = choose|k: int| 0 <= k < rest.len() && rest[k] == other;
                        assert(sorted[k] == other && sorted[sorted.len() - 1] == last);
                    }
                }
            }
        } else {
            assert forall|i: int, j: int|
                0 <= i < j < sorted.push(device).len() implies !index_before(
                #[trigger] sorted.push(device)[j].index,
                #[trigger] sorted.push(device)[i].index,
            ) by {
                if j == sorted.len() && i < sorted.len() - 1 {
                    lemma_index_order(device.index, last.index, sorted[i].index);
                    assert(sorted[sorted.len() - 1] == last);
                }
            }
        }
    }
}

/// Ordering by address keeps every device and leaves them in address order.
pub proof fn lemma_sort_by_index_orders(devices: Seq<CameraInfo>)
    ensures
        index_sorted(sort_by_index(devices)),
        sort_by_index(devices).to_multiset() == devices.to_multiset(),
    decreases devices.len(),
{
    broadcast use vstd::seq_lib::group_to_multiset_ensures;

    if devices.len() > 0 {
        lemma_sort_by_index_orders(devices.drop_last());
        lemma_insert_keeps_order(sort_by_index(devices.drop_last()), devices.last());
        assert(devices =~= devices.drop_last().push(devices.last()));
    }
}

proof fn lemma_trim_end_after_visible(s: Seq<char>, start: int, end: int)
    requires
        0 <= start < end <= s.len(),
        !crate::text::is_white_space(s[start]),
    ensures
        crate::text::trim_end_index(s, start, end) > start,
    decreases end - start,
{
    if crate::text::is_white_space(s[end - 1]) {
        lemma_trim_end_after_visible(s, start, end - 1);
    }
}

/// Every device of the inventory is listed in address order with a visible label: a device
/// without a name gets `Camera N`.
pub proof fn lemma_inventory_is_ordered_and_labelled(
    cached: Seq<CachedCameraDevice>,
    devices: Seq<CameraInfo>,
    capture: Seq<bool>,
)
    requires
        lists_inventory(cached, sort_by_index(capture_only(devices, capture))),
    ensures
        forall|i: int, j: int|
            0 <= i < j < cached.len() ==> !index_before(
                #[trigger] cached[j].index,
                #[trigger] cached[i].index,
            ),
        forall|i: int|
            0 <= i < cached.len() ==> crate::text::spec_trim(#[trigger] cached[i].public.label@).len()
                > 0,
{
    let sorted = sort_by_index(capture_only(devices, capture));
    lemma_sort_by_index_orders(capture_only(devices, capture));
    assert forall|i: int, j: int|
        0 <= i < j < cached.len() implies !index_before(
        #[trigger] cached[j].index,
        #[trigger] cached[i].index,
    ) by {
        assert(cached[j].index == sorted[j].index && cached[i].index == sorted[i].index);
    }
    assert forall|i: int| 0 <= i < cached.len() implies crate::text::spec_trim(
        #[trigger] cached[i].public.label@,
    ).len() > 0 by {
        let label = cached[i].public.label@;
        if crate::text::spec_trim(sorted[i].human_name@).len() == 0 {
            reveal_strlit("Camera ");
            assert(label[0] == 'C');
            assert(crate::text::trim_start_index(label, 0) == 0);
            lemma_trim_end_after_visible(label, 0, label.len() as int);
        }
    }
}

/// Places `device` into the address-ordered `sorted`.
fn insert_device(sorted: &mut Vec<CameraInfo>, device: CameraInfo)
    ensures
        final(sorted)@ == insert_by_index(old(sorted)@, device),
{
    let mut position = sorted.len();
    while position > 0 && index_in_order(&device.index, &sorted[position - 1].index)
        invariant
            position <= sorted.len(),
            forall|q: int|
                position <= q < sorted.len() ==> index_before(device.index, #[trigger] sorted@[q].index),
        decreases position,
    {
        position = position - 1;
    }
    proof {
        lemma_insert_at(sorted@, device, position as int);
    }
    sorted.insert(position, device);
}

/// The enumerated devices that can capture (`capture[i]` tells of `devices[i]`), ordered by
/// backend address, each with its stable identifier and a label that falls back to
/// `Camera N` when the backend gives no name.
pub fn cache_camera_devices(devices: &Vec<CameraInfo>, capture: &Vec<bool>) -> (cached: Vec<
    CachedCameraDevice,
>)
    requires
        capture.len() == devices.len(),
    ensures
        lists_inventory(cached@, sort_by_index(capture_only(devices@, capture@))),
{
    let mut sorted: Vec<CameraInfo> = Vec::new();
    let mut i: usize = 0;
    while i < devices.len()
        invariant
            i <= devices.len(),
            capture.len() == devices.len(),
            sorted@ == sort_by_index(capture_only(devices@.take(i as int), capture@.take(i as int))),
        decreases devices.len() - i,
    {
        proof {
            let (d, c) = (devices@.take(i + 1), capture@.take(i + 1));
            assert(d.drop_last() =~= devices@.take(i as int));
            assert(c.drop_last() =~= capture@.take(i as int));
            if capture@[i as int] {
                let filtered = capture_only(devices@.take(i as int), capture@.take(i as int));
                assert(capture_only(d, c) == filtered.push(devices@[i as int]));
                assert(filtered.push(devices@[i as int]).drop_last() =~= filtered);
            }
        }
        if capture[i] {
            insert_device(&mut sorted, copy_info(&devices[i]));
        }
        i = i + 1;
    }
    assert(devices@.take(devices.len() as int) =~= devices@);
    assert(capture@.take(capture.len() as int) =~= capture@);
    let mut cached: Vec<CachedCameraDevice> = Vec::new();
    let mut k: usize = 0;
    while k < sorted.len()
        invariant
            k <= sorted.len(),
            cached.len() == k,
            forall|j: int|
                0 <= j < k ==> {
                    &&& (#[trigger] cached@[j]).public.id@ == spec_stable_device_id(sorted@[j])
                    &&& cached@[j].public.label@ == spec_device_label(sorted@[j], j)
                    &&& cached@[j].index == sorted@[j].index
                },
        decreases sorted.len() - k,
    {
        let device = &sorted[k];
        let label = if is_blank(&device.human_name) {
            let mut text = String::new();
            text.append("Camera ");
            crate::text::push_decimal(&mut text, (k as u64) + 1);
            text
        } else {
            device.human_name.clone()
        };
        cached.push(
            CachedCameraDevice {
                public: CameraDevice { id: stable_device_id(device), label },
                index: copy_index(&device.index),
            },
        );
        k = k + 1;
    }
    cached
}

// ---------------------------------------------------------------------------------------------
// Opening a native stream.
// ---------------------------------------------------------------------------------------------

/// Whether two addresses name the same device.
pub open spec fn same_index(a: CameraIndex, b: CameraIndex) -> bool {
    match (a, b) {
        (CameraIndex::Index(x), CameraIndex::Index(y)) => x == y,
        (CameraIndex::String(x), CameraIndex::String(y)) => x@ == y@,
        _ => false,
    }
}

fn index_matches(a: &CameraIndex, b: &CameraIndex) -> (same: bool)
    ensures
        same == same_index(*a, *b),
{
    match (a, b) {
        (CameraIndex::Index(x), CameraIndex::Index(y)) => *x == *y,
        (CameraIndex::String(x), CameraIndex::String(y)) => crate::text::str_equals(
            x.as_str(),
            y.as_str(),
        ),
        _ => false,
    }
}

/// Whether a native source can be asked for a request: both sides and the frame interval are
/// nonzero.
pub open spec fn spec_start_request_valid(request: CaptureRequest) -> bool {
    request.width != 0 && request.height != 0 && request.frame_interval_nanos != 0
}

/// Whether a native source can be asked for a request.
pub fn start_request_valid(request: CaptureRequest) -> (valid: bool)
    ensures
        valid == spec_start_request_valid(request),
{
    request.width != 0 && request.height != 0 && request.frame_interval_nanos != 0
}

/// Whether some cached device has the identifier `id`.
pub open spec fn lists_device(devices: Seq<CachedCameraDevice>, id: Seq<char>) -> bool {
    exists|i: int| 0 <= i < devices.len() && (#[trigger] devices[i]).public.id@ == id
}

/// Whether the inventory must be enumerated again before a device can be resolved: it is
/// empty, or it lacks the requested device.
pub open spec fn spec_needs_device_refresh(devices: Seq<CachedCameraDevice>, device_id: Option<Seq<char>>) -> bool {
    devices.len() == 0 || (device_id matches Some(id) && !lists_device(devices, id))
}

fn position_of(devices: &Vec<CachedCameraDevice>, id: &str) -> (position: Option<usize>)
    ensures
        position matches Some(i) ==> i < devices.len() && devices@[i as int].public.id@ == id@
            && forall|j: int| 0 <= j < i ==> devices@[j].public.id@ != id@,
        position is None ==> !lists_device(devices@, id@),
{
    let mut i: usize = 0;
    while i < devices.len()
        invariant
            i <= devices.len(),
            forall|j: int| 0 <= j < i ==> devices@[j].public.id@ != id@,
        decreases devices.len() - i,
    {
        if crate::text::str_equals(devices[i].public.id.as_str(), id) {
            return Some(i);
        }
        i = i + 1;
    }
    None
}

/// Whether the inventory must be enumerated again before `device_id` can be resolved.
pub fn needs_device_refresh(devices: &Vec<CachedCameraDevice>, device_id: Option<&str>) -> (refresh:
    bool)
    ensures
        refresh == spec_needs_device_refresh(devices@, crate::profile::optional_text(device_id)),
{
    if devices.len() == 0 {
        return true;
    }
    match device_id {
        None => false,
        Some(id) => position_of(devices, id).is_none(),
    }
}

/// The address of the requested device: the first device when none is requested, else the
/// first with the requested identifier; not found when there is none.
pub fn find_device_index(devices: &Vec<CachedCameraDevice>, device_id: Option<&str>) -> (index:
    Result<CameraIndex, CameraError>)
    ensures
        device_id is None ==> (devices.len() == 0 <==> index is Err) && (devices.len() > 0
            ==> index == Ok::<CameraIndex, CameraError>(devices@[0].index)),
        device_id matches Some(id) ==> (index is Err <==> !lists_device(devices@, id@)) && (
        index matches Ok(found) ==> exists|i: int|
            0 <= i < devices.len() && devices@[i].public.id@ == id@ && found == devices@[i].index
                && forall|j: int| 0 <= j < i ==> devices@[j].public.id@ != id@),
        index matches Err(e) ==> e == CameraError::DeviceNotFound,
{
    match device_id {
        None => {
            if devices.len() == 0 {
                Err(CameraError::DeviceNotFound)
            } else {
                Ok(copy_index(&devices[0].index))
            }
        },
        Some(id) => match position_of(devices, id) {
            None => Err(CameraError::DeviceNotFound),
            Some(i) => Ok(copy_index(&devices[i].index)),
        },
    }
}

/// What a native source remembers of its stream besides the device handle.
#[derive(Debug, Clone, PartialEq, Eq)]
pub struct StreamState {
    /// The address of the open device.
    pub active_index: Option<CameraIndex>,
    /// The sequence number of the next frame.
    pub next_sequence: u64,
    /// Transient frame errors since the last good frame.
    pub consecutive_frame_errors: u8,
}

impl StreamState {
    /// No stream: no device, sequence and error count at zero.
    pub fn new() -> (state: StreamState)
        ensures
            state.active_index is None,
            state.next_sequence == 0,
            state.consecutive_frame_errors == 0,
    {
        StreamState { active_index: None, next_sequence: 0, consecutive_frame_errors: 0 }
    }

    /// Forgets the stream, whether or not a device handle was still live.
    pub fn stop(&mut self)
        ensures
            final(self).active_index is None,
            final(self).next_sequence == 0,
            final(self).consecutive_frame_errors == 0,
    {
        self.active_index = None;
        self.next_sequence = 0;
        self.consecutive_frame_errors = 0;
    }

    /// Whether starting `index` reconfigures the open device instead of opening it anew.
    pub fn is_restart(&self, index: &CameraIndex, device_open: bool) -> (restart: bool)
        ensures
            restart == (device_open && (self.active_index matches Some(active) && same_index(
                active,
                *index,
            ))),
    {
        match &self.active_index {
            Some(active) => device_open && index_matches(active, index),
            None => false,
        }
    }

    /// Forgets the device and the sequence while the open device is reconfigured.
    pub fn begin_restart(&mut self)
        ensures
            final(self).active_index is None,
            final(self).next_sequence == 0,
            final(self).consecutive_frame_errors == old(self).consecutive_frame_errors,
    {
        self.active_index = None;
        self.next_sequence = 0;
    }

    /// Records a stream that opened on `index`.
    pub fn started(&mut self, index: CameraIndex)
        ensures
            final(self).active_index == Some(index),
            final(self).next_sequence == 0,
            final(self).consecutive_frame_errors == 0,
    {
        self.active_index = Some(index);
        self.next_sequence = 0;
        self.consecutive_frame_errors = 0;
    }

    /// Records a delivered frame and returns its sequence number; the error run ends.
    pub fn frame_delivered(&mut self) -> (sequence: u64)
        ensures
            sequence == old(self).next_sequence,
            final(self).next_sequence == (if old(self).next_sequence == u64::MAX {
                u64::MAX as int
            } else {
                old(self).next_sequence + 1
            }),
            final(self).consecutive_frame_errors == 0,
            final(self).active_index == old(self).active_index,
    {
        let sequence = self.next_sequence;
        self.next_sequence = self.next_sequence.saturating_add(1);
        self.consecutive_frame_errors = 0;
        sequence
    }

    /// Records a failed capture or decode; see [`tolerate_transient_frame_error`].
    pub fn frame_failed(&mut self, error: CameraError) -> (result: Result<(), CameraError>)
        ensures
            final(self).active_index == old(self).active_index,
            final(self).next_sequence == old(self).next_sequence,
            !is_transient_error(error) ==> final(self).consecutive_frame_errors == old(
                self,
            ).consecutive_frame_errors && result == Err::<(), CameraError>(error),
            is_transient_error(error) ==> final(self).consecutive_frame_errors == (if old(
                self,
            ).consecutive_frame_errors == u8::MAX {
                u8::MAX as int
            } else {
                old(self).consecutive_frame_errors + 1
            }),
            is_transient_error(error) ==> result == (if final(self).consecutive_frame_errors
                <= TRANSIENT_FRAME_ERROR_LIMIT {
                Ok::<(), CameraError>(())
            } else {
                Err(error)
            }),
    {
        let mut count = self.consecutive_frame_errors;
        let result = tolerate_transient_frame_error(&mut count, error);
        self.consecutive_frame_errors = count;
        result
    }
}

/// Whether a failure may go away on its own (busy or backend).
pub open spec fn is_transient_error(error: CameraError) -> bool {
    crate::camera::is_transient(error)
}

} // verus!
