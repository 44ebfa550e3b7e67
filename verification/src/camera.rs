//! Camera abstractions: frame sources, the deterministic synthetic camera and the rules that
//! classify and tolerate backend failures.

use vstd::prelude::*;
use vstd::arithmetic::div_mod::{lemma_fundamental_div_mod, lemma_fundamental_div_mod_converse};
use vstd::arithmetic::mul::{lemma_mul_inequality, lemma_mul_strict_inequality};

verus! {

/// A camera that can be shown in the selection menu.
#[derive(Debug, Clone, PartialEq, Eq)]
pub struct CameraDevice {
    /// Backend identifier. It must not be written to diagnostics.
    pub id: String,
    /// User-visible device label.
    pub label: String,
}

/// Capture dimensions and cadence requested by the application.
#[derive(Debug, Clone, Copy, PartialEq, Eq, Structural)]
pub struct CaptureRequest {
    /// Desired frame width in physical pixels.
    pub width: u32,
    /// Desired frame height in physical pixels.
    pub height: u32,
    /// Desired time between frames, in nanoseconds.
    pub frame_interval_nanos: u64,
}

/// One tightly packed RGBA frame.
#[derive(Debug, Clone, PartialEq, Eq)]
pub struct VideoFrame {
    /// Frame width in physical pixels.
    pub width: u32,
    /// Frame height in physical pixels.
    pub height: u32,
    /// Monotonic sequence assigned by the frame source.
    pub sequence: u64,
    /// RGBA pixels in row-major order.
    pub rgba: Vec<u8>,
}

/// Stable error categories shared by real and synthetic sources.
#[derive(Debug, Clone, Copy, PartialEq, Eq, Structural, Hash)]
pub enum CameraError {
    /// The user or system denied camera access.
    PermissionDenied,
    /// The requested camera is no longer available.
    DeviceNotFound,
    /// Another application or backend owns the camera.
    Busy,
    /// The backend could not produce a usable frame.
    Backend,
}

// ---------------------------------------------------------------------------------------------
// The synthetic test pattern.
// ---------------------------------------------------------------------------------------------

/// One byte of an RGBA pixel: the color's channel, or full alpha.
pub open spec fn pixel_byte(color: (u8, u8, u8), channel: int) -> u8 {
    if channel == 0 {
        color.0
    } else if channel == 1 {
        color.1
    } else if channel == 2 {
        color.2
    } else {
        255
    }
}

/// The horizontal gradient value of column `x` in a frame `width` pixels wide.
pub open spec fn synthetic_gradient(width: int, x: int) -> int {
    if width > 1 {
        let product = if x * 127 > u32::MAX {
            u32::MAX as int
        } else {
            x * 127
        };
        let value = product / (width - 1);
        if value <= 255 {
            value
        } else {
            127
        }
    } else {
        0
    }
}

/// Whether the pixel lies on one of the three concentric rings around the center.
pub open spec fn on_synthetic_ring(width: int, height: int, x: int, y: int) -> bool {
    let center_x = width / 2;
    let center_y = height / 2;
    let smaller = if center_x < center_y {
        center_x
    } else {
        center_y
    };
    let maximum_radius = if smaller < 1 {
        1
    } else {
        smaller
    };
    let dx = x - center_x;
    let dy = y - center_y;
    let distance_squared = dx * dx + dy * dy;
    ring_hit(maximum_radius, distance_squared, 1) || ring_hit(maximum_radius, distance_squared, 2)
        || ring_hit(maximum_radius, distance_squared, 3)
}

/// Whether a squared distance lies within `maximum_radius` of the squared radius of ring
/// `ring` (of three, evenly spaced out to three quarters of `maximum_radius`).
pub open spec fn ring_hit(maximum_radius: int, distance_squared: int, ring: int) -> bool {
    let radius = maximum_radius * ring / 4;
    let difference = distance_squared - radius * radius;
    -maximum_radius <= difference <= maximum_radius
}

/// The color of pixel `(x, y)` of the synthetic test pattern: a checkerboard with a blue
/// gradient, a grid every 32 pixels, three rings and a crosshair through the center.
pub open spec fn synthetic_color(width: int, height: int, sequence: int, x: int, y: int) -> (
    u8,
    u8,
    u8,
) {
    if x == width / 2 || y == height / 2 {
        (255, 108, 77)
    } else if on_synthetic_ring(width, height, x, y) {
        (124, 226, 198)
    } else if x % 32 == 0 || y % 32 == 0 {
        (84, 102, 128)
    } else {
        let checker = (x / 16 + y / 16) % 2 == 0;
        let blue = 82 + synthetic_gradient(width, x) / 3 + (sequence % 96) / 4;
        if checker {
            (52, 64, blue as u8)
        } else {
            (34, 46, blue as u8)
        }
    }
}

/// The RGBA bytes of the synthetic test pattern, row by row.
pub open spec fn synthetic_pattern(width: int, height: int, sequence: int) -> Seq<u8> {
    Seq::new(
        (width * height * 4) as nat,
        |k: int|
            pixel_byte(
                synthetic_color(width, height, sequence, (k / 4) % width, (k / 4) / width),
                k % 4,
            ),
    )
}

/// The moving marker of frame `sequence`: at most 16 × 8 pixels on the bottom rows, shifted
/// one column per frame. Frame 0 has none.
pub open spec fn in_synthetic_marker(width: int, height: int, sequence: int, x: int, y: int) -> bool {
    let marker_width = if width < 1 {
        1
    } else if width > 16 {
        16
    } else {
        width
    };
    let marker_height = if height < 1 {
        1
    } else if height > 8 {
        8
    } else {
        height
    };
    let travel = (if width > marker_width {
        width - marker_width
    } else {
        0
    }) + 1;
    let start_x = sequence % travel;
    let start_y = if height > marker_height {
        height - marker_height
    } else {
        0
    };
    sequence > 0 && start_x <= x < start_x + marker_width && start_y <= y < height
}

/// The marker's color.
pub open spec fn marker_color() -> (u8, u8, u8) {
    (255, 176, 103)
}

/// The RGBA bytes `rgba` with the marker of frame `sequence` painted over them.
pub open spec fn with_synthetic_marker(rgba: Seq<u8>, width: int, height: int, sequence: int) -> Seq<
    u8,
> {
    Seq::new(
        rgba.len(),
        |k: int|
            if in_synthetic_marker(width, height, sequence, (k / 4) % width, (k / 4) / width) {
                pixel_byte(marker_color(), k % 4)
            } else {
                rgba[k]
            },
    )
}

/// The row-major position of byte `k` of a frame `width` pixels wide.
proof fn lemma_byte_position(width: int, x: int, y: int, channel: int)
    requires
        width > 0,
        0 <= x < width,
        0 <= y,
        0 <= channel < 4,
    ensures
        ({
            let k = (y * width + x) * 4 + channel;
            &&& k / 4 == y * width + x
            &&& k % 4 == channel
            &&& (k / 4) % width == x
            &&& (k / 4) / width == y
        }),
{
    let k = (y * width + x) * 4 + channel;
    lemma_fundamental_div_mod_converse(k, 4, y * width + x, channel);
    lemma_fundamental_div_mod_converse(y * width + x, width, y, x);
}

fn ring_hits(maximum_radius: i64, distance_squared: i64, ring: i64) -> (hit: bool)
    requires
        1 <= maximum_radius < 0x8000_0000,
        0 <= distance_squared < 0x8000_0000_0000_0000,
        1 <= ring <= 3,
    ensures
        hit == ring_hit(maximum_radius as int, distance_squared as int, ring as int),
{
    assert(maximum_radius * ring < 0x1_8000_0000) by (nonlinear_arith)
        requires
            1 <= maximum_radius < 0x8000_0000,
            1 <= ring <= 3,
    ;
    assert(maximum_radius * ring >= 0) by (nonlinear_arith)
        requires
            1 <= maximum_radius,
            1 <= ring,
    ;
    let radius: i64 = maximum_radius * ring / 4;
    assert(0 <= radius * radius <= 0x2400_0000_0000_0000) by (nonlinear_arith)
        requires
            0 <= radius <= 0x6000_0000,
    ;
    let target: i64 = radius * radius;
    let difference: i64 = distance_squared - target;
    -maximum_radius <= difference && difference <= maximum_radius
}

/// The color of pixel `(x, y)` of the synthetic test pattern.
fn synthetic_pixel(width: u32, height: u32, sequence: u64, x: u32, y: u32) -> (color: (u8, u8, u8))
    requires
        x < width,
        y < height,
    ensures
        color == synthetic_color(width as int, height as int, sequence as int, x as int, y as int),
{
    let center_x: i64 = (width / 2) as i64;
    let center_y: i64 = (height / 2) as i64;
    if x as i64 == center_x || y as i64 == center_y {
        return (255, 108, 77);
    }
    let smaller = if center_x < center_y {
        center_x
    } else {
        center_y
    };
    let maximum_radius: i64 = if smaller < 1 {
        1
    } else {
        smaller
    };
    let delta_x: i64 = x as i64 - center_x;
    let delta_y: i64 = y as i64 - center_y;
    assert(-0x8000_0000 < delta_x < 0x8000_0000 && -0x8000_0000 < delta_y < 0x8000_0000);
    assert(delta_x * delta_x < 0x4000_0000_0000_0000) by (nonlinear_arith)
        requires
            -0x8000_0000 < delta_x < 0x8000_0000,
    ;
    assert(delta_y * delta_y < 0x4000_0000_0000_0000) by (nonlinear_arith)
        requires
            -0x8000_0000 < delta_y < 0x8000_0000,
    ;
    assert(0 <= delta_x * delta_x && 0 <= delta_y * delta_y) by (nonlinear_arith);
    let distance_squared: i64 = delta_x * delta_x + delta_y * delta_y;
    let on_ring = ring_hits(maximum_radius, distance_squared, 1) || ring_hits(
        maximum_radius,
        distance_squared,
        2,
    ) || ring_hits(maximum_radius, distance_squared, 3);
    if on_ring {
        return (124, 226, 198);
    }
    if x % 32 == 0 || y % 32 == 0 {
        return (84, 102, 128);
    }
    let checker = (x / 16 + y / 16) % 2 == 0;
    let gradient: u64 = if width > 1 {
        let product: u64 = x as u64 * 127;
        let product = if product > 0xFFFF_FFFF {
            0xFFFF_FFFF
        } else {
            product
        };
        let value = product / (width as u64 - 1);
        if value <= 255 {
            value
        } else {
            127
        }
    } else {
        0
    };
    let blue = (82 + gradient / 3 + (sequence % 96) / 4) as u8;
    if checker {
        (52, 64, blue)
    } else {
        (34, 46, blue)
    }
}

/// Generates the synthetic test pattern for a request, every pixel opaque; fails with a backend
/// error exactly when the frame's byte length does not fit in `usize`.
fn generate_synthetic_frame(request: CaptureRequest, sequence: u64) -> (frame: Result<
    VideoFrame,
    CameraError,
>)
    ensures
        frame is Err <==> request.width * request.height * 4 > usize::MAX,
        match frame {
            Ok(f) => {
                &&& f.width == request.width
                &&& f.height == request.height
                &&& f.sequence == sequence
                &&& f.rgba@ == synthetic_pattern(
                    request.width as int,
                    request.height as int,
                    sequence as int,
                )
                &&& f.rgba@.len() == request.width * request.height * 4
                &&& forall|i: int|
                    0 <= i < request.width * request.height ==> #[trigger] f.rgba@[4 * i + 3]
                        == 255
            },
            Err(e) => e == CameraError::Backend,
        },
{
    let width = request.width;
    let height = request.height;
    assert(width as u64 * height as u64 <= 0xFFFF_FFFE_0000_0001) by (nonlinear_arith)
        requires
            width <= 0xFFFF_FFFF,
            height <= 0xFFFF_FFFF,
    ;
    let pixels: u64 = width as u64 * height as u64;
    if pixels > (usize::MAX / 4) as u64 {
        return Err(CameraError::Backend);
    }
    let ghost w = width as int;
    let ghost h = height as int;
    let mut rgba: Vec<u8> = Vec::new();
    let mut y: u32 = 0;
    while y < height
        invariant
            width == request.width,
            height == request.height,
            w == width,
            h == height,
            w * h * 4 <= usize::MAX,
            y <= height,
            rgba@.len() == y * w * 4,
            forall|k: int|
                0 <= k < rgba@.len() ==> #[trigger] rgba@[k] == pixel_byte(
                    synthetic_color(w, h, sequence as int, (k / 4) % w, (k / 4) / w),
                    k % 4,
                ),
        decreases height - y,
    {
        let mut x: u32 = 0;
        while x < width
            invariant
                width == request.width,
                height == request.height,
                w == width,
                h == height,
                w * h * 4 <= usize::MAX,
                y < height,
                x <= width,
                rgba@.len() == (y * w + x) * 4,
                forall|k: int|
                    0 <= k < rgba@.len() ==> #[trigger] rgba@[k] == pixel_byte(
                        synthetic_color(w, h, sequence as int, (k / 4) % w, (k / 4) / w),
                        k % 4,
                    ),
            decreases width - x,
        {
            let color = synthetic_pixel(width, height, sequence, x, y);
            let ghost before = rgba@.len();
            proof {
                lemma_byte_position(w, x as int, y as int, 0);
                lemma_byte_position(w, x as int, y as int, 1);
                lemma_byte_position(w, x as int, y as int, 2);
                lemma_byte_position(w, x as int, y as int, 3);
                assert((y * w + x) * 4 + 4 == (y * w + x + 1) * 4) by (nonlinear_arith);
            }
            rgba.push(color.0);
            rgba.push(color.1);
            rgba.push(color.2);
            rgba.push(255);
            x = x + 1;
        }
        proof {
            assert((y * w + w) * 4 == (y + 1) * w * 4) by (nonlinear_arith);
        }
        y = y + 1;
    }
    let ghost final_rgba = rgba@;
    proof {
        assert(h * w * 4 == w * h * 4) by (nonlinear_arith);
        assert(final_rgba =~= synthetic_pattern(w, h, sequence as int));
        assert forall|i: int| 0 <= i < w * h implies #[trigger] final_rgba[4 * i + 3] == 255 by {
            lemma_fundamental_div_mod_converse(4 * i + 3, 4, i, 3);
        }
    }
    Ok(VideoFrame { width, height, sequence, rgba })
}

/// The only bytes at pixel `(x, y)` are the four starting at `(y * width + x) * 4`.
proof fn lemma_position_unique(j: int, width: int, x: int, y: int)
    requires
        width > 0,
        j >= 0,
        (j / 4) % width == x,
        (j / 4) / width == y,
    ensures
        (y * width + x) * 4 <= j < (y * width + x) * 4 + 4,
{
    lemma_fundamental_div_mod(j, 4);
    lemma_fundamental_div_mod(j / 4, width);
    assert(j / 4 == y * width + x) by (nonlinear_arith)
        requires
            j / 4 == width * ((j / 4) / width) + (j / 4) % width,
            (j / 4) % width == x,
            (j / 4) / width == y,
    ;
}

/// Whether byte `j` belongs to a marker pixel already painted by a row-major scan that has
/// reached pixel `(x, y)`.
pub open spec fn marker_painted(
    width: int,
    height: int,
    sequence: int,
    j: int,
    x: int,
    y: int,
) -> bool {
    let column = (j / 4) % width;
    let row = (j / 4) / width;
    in_synthetic_marker(width, height, sequence, column, row) && (row < y || (row == y && column
        < x))
}

/// Paints the marker of frame `sequence` onto a frame of the requested size; frame 0 has no
/// marker. Fails when the buffer's length is not that of such a frame.
fn animate_synthetic_marker(rgba: &mut Vec<u8>, request: CaptureRequest, sequence: u64) -> (result:
    Result<(), CameraError>)
    requires
        request.width > 0 || request.height == 0,
    ensures
        sequence == 0 ==> result is Ok && final(rgba)@ == old(rgba)@,
        sequence > 0 ==> match result {
            Ok(()) => old(rgba)@.len() == request.width * request.height * 4 && final(rgba)@
                == with_synthetic_marker(
                old(rgba)@,
                request.width as int,
                request.height as int,
                sequence as int,
            ),
            Err(e) => e == CameraError::Backend && old(rgba)@.len() != request.width
                * request.height * 4 && final(rgba)@ == old(rgba)@,
        },
{
    if sequence == 0 {
        return Ok(());
    }
    let width = request.width as u64;
    let height = request.height as u64;
    assert(width * height <= 0xFFFF_FFFE_0000_0001) by (nonlinear_arith)
        requires
            width <= 0xFFFF_FFFF,
            height <= 0xFFFF_FFFF,
    ;
    let pixels: u64 = width * height;
    let length = rgba.len();
    if pixels > (usize::MAX / 4) as u64 {
        assert(pixels * 4 > usize::MAX);
        assert(length as int != request.width * request.height * 4);
        return Err(CameraError::Backend);
    }
    if rgba.len() as u64 != pixels * 4 {
        return Err(CameraError::Backend);
    }
    let ghost w = width as int;
    let ghost h = height as int;
    let ghost original = rgba@;
    if height == 0 {
        assert(original =~= with_synthetic_marker(original, w, h, sequence as int));
        return Ok(());
    }
    let marker_width: u64 = if width > 16 {
        16
    } else {
        width
    };
    let marker_height: u64 = if height > 8 {
        8
    } else {
        height
    };
    let travel: u64 = width - marker_width + 1;
    let start_x: u64 = sequence % travel;
    let start_y: u64 = height - marker_height;
    let mut y: u64 = start_y;
    while y < height
        invariant
            w == width,
            h == height,
            w > 0,
            h > 0,
            sequence > 0,
            marker_width == (if w > 16 { 16 } else { w }),
            marker_height == (if h > 8 { 8 } else { h }),
            start_x == (sequence as int) % (w - marker_width + 1),
            start_y == h - marker_height,
            start_y <= y <= height,
            rgba@.len() == original.len(),
            original.len() == w * h * 4,
            original.len() <= usize::MAX,
            forall|j: int|
                0 <= j < original.len() ==> #[trigger] rgba@[j] == if marker_painted(
                    w,
                    h,
                    sequence as int,
                    j,
                    0,
                    y as int,
                ) {
                    pixel_byte(marker_color(), j % 4)
                } else {
                    original[j]
                },
        decreases height - y,
    {
        let mut x: u64 = start_x;
        assert forall|j: int| 0 <= j < original.len() implies #[trigger] marker_painted(
            w,
            h,
            sequence as int,
            j,
            0,
            y as int,
        ) == marker_painted(w, h, sequence as int, j, start_x as int, y as int) by {}
        while x < start_x + marker_width
            invariant
                w == width,
                h == height,
                w > 0,
                sequence > 0,
                marker_width == (if w > 16 { 16 } else { w }),
                marker_height == (if h > 8 { 8 } else { h }),
                start_x == (sequence as int) % (w - marker_width + 1),
                start_y == h - marker_height,
                start_y <= y < height,
                start_x <= x <= start_x + marker_width,
                start_x + marker_width <= w,
                rgba@.len() == original.len(),
                original.len() == w * h * 4,
                original.len() <= usize::MAX,
                forall|j: int|
                    0 <= j < original.len() ==> #[trigger] rgba@[j] == if marker_painted(
                        w,
                        h,
                        sequence as int,
                        j,
                        x as int,
                        y as int,
                    ) {
                        pixel_byte(marker_color(), j % 4)
                    } else {
                        original[j]
                    },
            decreases start_x + marker_width - x,
        {
            proof {
                assert((y * w + x) * 4 + 4 <= w * h * 4) by (nonlinear_arith)
                    requires
                        x < w,
                        y < h,
                ;
                assert(0 <= y * w <= y * w + x) by (nonlinear_arith)
                    requires
                        0 <= x,
                        0 <= y,
                        0 < w,
                ;
                lemma_byte_position(w, x as int, y as int, 0);
                lemma_byte_position(w, x as int, y as int, 1);
                lemma_byte_position(w, x as int, y as int, 2);
                lemma_byte_position(w, x as int, y as int, 3);
            }
            let index = ((y * width + x) * 4) as usize;
            let ghost before = rgba@;
            rgba.set(index, 255);
            rgba.set(index + 1, 176);
            rgba.set(index + 2, 103);
            rgba.set(index + 3, 255);
            proof {
                assert forall|j: int| 0 <= j < original.len() implies #[trigger] rgba@[j] == if marker_painted(
                    w,
                    h,
                    sequence as int,
                    j,
                    x + 1,
                    y as int,
                ) {
                    pixel_byte(marker_color(), j % 4)
                } else {
                    original[j]
                } by {
                    if index <= j < index + 4 {
                        lemma_byte_position(w, x as int, y as int, j - index);
                    } else if (j / 4) % w == x && (j / 4) / w == y {
                        lemma_position_unique(j, w, x as int, y as int);
                    }
                }
            }
            x = x + 1;
        }
        assert forall|j: int| 0 <= j < original.len() implies #[trigger] marker_painted(
            w,
            h,
            sequence as int,
            j,
            (start_x + marker_width) as int,
            y as int,
        ) == marker_painted(w, h, sequence as int, j, 0, y + 1) by {}
        y = y + 1;
    }
    proof {
        assert forall|j: int| 0 <= j < original.len() implies !#[trigger] marker_painted(
            w,
            h,
            sequence as int,
            j,
            0,
            h,
        ) == !in_synthetic_marker(w, h, sequence as int, (j / 4) % w, (j / 4) / w) by {
            lemma_fundamental_div_mod(j / 4, w);
            assert(0 <= j / 4 < w * h);
            if (j / 4) / w >= h {
                assert((j / 4) / w * w >= h * w) by (nonlinear_arith)
                    requires
                        (j / 4) / w >= h,
                        w > 0,
                ;
            }
        }
        assert(rgba@ =~= with_synthetic_marker(original, w, h, sequence as int));
    }
    Ok(())
}

// ---------------------------------------------------------------------------------------------
// Frame sources.
// ---------------------------------------------------------------------------------------------

/// Cross-platform boundary between application state and frame capture.
pub trait FrameSource {
    /// Lists devices available to this source.
    fn devices(&mut self) -> Result<Vec<CameraDevice>, CameraError>;

    /// Starts or replaces the active capture.
    fn start(&mut self, device_id: Option<&str>, request: CaptureRequest) -> Result<(), CameraError>;

    /// Takes the newest available frame, if one exists.
    fn latest_frame(&mut self) -> Result<Option<VideoFrame>, CameraError>;

    /// Stops capture and releases associated resources.
    fn stop(&mut self);
}

/// The largest frame side the synthetic camera accepts.
pub const SYNTHETIC_MAXIMUM_SIDE: u32 = 4096;

/// Whether the synthetic camera accepts a request: both sides in `1..=4096` and a non-zero
/// frame interval.
pub open spec fn synthetic_request_valid(request: CaptureRequest) -> bool {
    &&& 1 <= request.width <= SYNTHETIC_MAXIMUM_SIDE
    &&& 1 <= request.height <= SYNTHETIC_MAXIMUM_SIDE
    &&& request.frame_interval_nanos > 0
}

/// The RGBA bytes of synthetic frame `sequence`: the test pattern with that frame's marker.
pub open spec fn synthetic_frame_bytes(request: CaptureRequest, sequence: u64) -> Seq<u8> {
    with_synthetic_marker(
        synthetic_pattern(request.width as int, request.height as int, 0),
        request.width as int,
        request.height as int,
        sequence as int,
    )
}

/// Whether `frame` is synthetic frame `sequence` for a request.
pub open spec fn is_synthetic_frame(frame: VideoFrame, request: CaptureRequest, sequence: u64) -> bool {
    &&& frame.width == request.width
    &&& frame.height == request.height
    &&& frame.sequence == sequence
    &&& frame.rgba@ == synthetic_frame_bytes(request, sequence)
}

/// The sequence after `sequence`, saturating.
pub open spec fn next_sequence(sequence: u64) -> u64 {
    if sequence == u64::MAX {
        u64::MAX
    } else {
        (sequence + 1) as u64
    }
}

/// What a synthetic source holds: the running request, the sequence of the frame waiting to
/// be taken, and the sequence the next generated frame gets.
#[derive(Debug, Clone, Copy, PartialEq, Eq)]
pub struct SyntheticState {
    /// The request being served, if running.
    pub request: Option<CaptureRequest>,
    /// The sequence of the frame waiting to be taken.
    pub pending: Option<u64>,
    /// The sequence of the next generated frame.
    pub next_sequence: u64,
}

/// Deterministic, privacy-safe source used by tests, diagnostics, and automation.
#[derive(Debug)]
pub struct SyntheticFrameSource {
    request: Option<CaptureRequest>,
    base_rgba: Vec<u8>,
    latest: Option<VideoFrame>,
    next_sequence: u64,
}

impl View for SyntheticFrameSource {
    type V = SyntheticState;

    closed spec fn view(&self) -> SyntheticState {
        SyntheticState {
            request: self.request,
            pending: match self.latest {
                Some(frame) => Some(frame.sequence),
                None => None,
            },
            next_sequence: self.next_sequence,
        }
    }
}

impl SyntheticFrameSource {
    /// Stable non-hardware device identifier.
    pub const DEVICE_ID: &'static str = "synthetic";

    #[verifier::type_invariant]
    closed spec fn well_formed(self) -> bool {
        match self.request {
            Some(request) => {
                &&& synthetic_request_valid(request)
                &&& self.base_rgba@ == synthetic_pattern(
                    request.width as int,
                    request.height as int,
                    0,
                )
                &&& match self.latest {
                    Some(frame) => is_synthetic_frame(frame, request, frame.sequence)
                        && self.next_sequence == next_sequence(frame.sequence),
                    None => true,
                }
            },
            None => self.latest is None && self.next_sequence == 0,
        }
    }

    /// Generates one new frame and replaces any unconsumed frame; fails when not started.
    pub fn advance(&mut self) -> (result: Result<(), CameraError>)
        ensures
            match old(self)@.request {
                None => result == Err::<(), CameraError>(CameraError::Backend) && final(self)@
                    == old(self)@,
                Some(request) => result is Ok && final(self)@ == (SyntheticState {
                    request: Some(request),
                    pending: Some(old(self)@.next_sequence),
                    next_sequence: next_sequence(old(self)@.next_sequence),
                }),
            },
    {
        proof {
            use_type_invariant(&*self);
        }
        let request = match self.request {
            Some(request) => request,
            None => return Err(CameraError::Backend),
        };
        let mut rgba = self.base_rgba.clone();
        assert(rgba@ =~= self.base_rgba@);
        let sequence = self.next_sequence;
        let animated = animate_synthetic_marker(&mut rgba, request, sequence);
        proof {
            assert(request.width * request.height * 4 <= 4096 * 4096 * 4) by (nonlinear_arith)
                requires
                    1 <= request.width <= 4096,
                    1 <= request.height <= 4096,
            ;
            if sequence == 0 {
                assert(rgba@ =~= synthetic_frame_bytes(request, sequence));
            }
        }
        if animated.is_err() {
            return Err(CameraError::Backend);
        }
        let frame = VideoFrame {
            width: request.width,
            height: request.height,
            sequence,
            rgba,
        };
        let next = if sequence == u64::MAX {
            u64::MAX
        } else {
            sequence + 1
        };
        let mut current = SyntheticFrameSource::default();
        std::mem::swap(&mut current, self);
        proof {
            use_type_invariant(&current);
        }
        let SyntheticFrameSource { base_rgba, .. } = current;
        *self = SyntheticFrameSource {
            request: Some(request),
            base_rgba,
            latest: Some(frame),
            next_sequence: next,
        };
        Ok(())
    }
}

impl Default for SyntheticFrameSource {
    fn default() -> (source: SyntheticFrameSource)
        ensures
            source@ == (SyntheticState { request: None, pending: None, next_sequence: 0 }),
    {
        SyntheticFrameSource { request: None, base_rgba: Vec::new(), latest: None, next_sequence: 0 }
    }
}

impl FrameSource for SyntheticFrameSource {
    fn devices(&mut self) -> (devices: Result<Vec<CameraDevice>, CameraError>)
        ensures
            devices matches Ok(list) && list@.len() == 1 && list@[0].id@ == "synthetic"@
                && list@[0].label@ == "Camlet synthetic camera"@,
            final(self)@ == old(self)@,
    {
        Ok(
            vec![
                CameraDevice {
                    id: String::from_str(Self::DEVICE_ID),
                    label: String::from_str("Camlet synthetic camera"),
                },
            ],
        )
    }

    fn start(&mut self, device_id: Option<&str>, request: CaptureRequest) -> (result: Result<
        (),
        CameraError,
    >)
        ensures
            ({
                let accepted = synthetic_request_valid(request) && match device_id {
                    Some(id) => id@ == "synthetic"@,
                    None => true,
                };
                &&& accepted ==> result is Ok && final(self)@ == (SyntheticState {
                    request: Some(request),
                    pending: Some(0),
                    next_sequence: 1,
                })
                &&& !accepted ==> result == Err::<(), CameraError>(CameraError::Backend)
                    && final(self)@ == old(self)@
            }),
    {
        let foreign = match device_id {
            Some(id) => !crate::text::str_equals(id, Self::DEVICE_ID),
            None => false,
        };
        if foreign || request.width == 0 || request.height == 0 || request.width > SYNTHETIC_MAXIMUM_SIDE
            || request.height > SYNTHETIC_MAXIMUM_SIDE || request.frame_interval_nanos == 0 {
            return Err(CameraError::Backend);
        }
        let base = match generate_synthetic_frame(request, 0) {
            Ok(frame) => frame.rgba,
            Err(error) => {
                proof {
                    assert(request.width * request.height * 4 <= 4096 * 4096 * 4)
                        by (nonlinear_arith)
                        requires
                            1 <= request.width <= 4096,
                            1 <= request.height <= 4096,
                    ;
                }
                return Err(error);
            },
        };
        *self = SyntheticFrameSource {
            request: Some(request),
            base_rgba: base,
            latest: None,
            next_sequence: 0,
        };
        self.advance()
    }

    fn latest_frame(&mut self) -> (frame: Result<Option<VideoFrame>, CameraError>)
        ensures
            match old(self)@.request {
                None => frame == Ok::<Option<VideoFrame>, CameraError>(None) && final(self)@
                    == old(self)@,
                Some(request) => {
                    let sequence = match old(self)@.pending {
                        Some(pending) => pending,
                        None => old(self)@.next_sequence,
                    };
                    &&& frame matches Ok(Some(f)) && is_synthetic_frame(f, request, sequence)
                    &&& final(self)@ == (SyntheticState {
                        request: Some(request),
                        pending: None,
                        next_sequence: next_sequence(sequence),
                    })
                },
            },
    {
        proof {
            use_type_invariant(&*self);
        }
        if self.latest.is_none() && self.request.is_some() {
            let advanced = self.advance();
            if advanced.is_err() {
                return Err(CameraError::Backend);
            }
        }
        proof {
            use_type_invariant(&*self);
        }
        let mut current = SyntheticFrameSource::default();
        std::mem::swap(&mut current, self);
        proof {
            use_type_invariant(&current);
        }
        let SyntheticFrameSource { request, base_rgba, latest, next_sequence } = current;
        *self = SyntheticFrameSource { request, base_rgba, latest: None, next_sequence };
        Ok(latest)
    }

    fn stop(&mut self)
        ensures
            final(self)@ == (SyntheticState { request: None, pending: None, next_sequence: 0 }),
    {
        *self = SyntheticFrameSource {
            request: None,
            base_rgba: Vec::new(),
            latest: None,
            next_sequence: 0,
        };
    }
}

/// What a scripted source holds.
pub ghost struct ScriptedState {
    /// Devices returned by enumeration.
    pub devices: Seq<CameraDevice>,
    /// Failure returned by enumeration until cleared.
    pub devices_error: Option<CameraError>,
    /// Failure returned by the next start attempt.
    pub start_error: Option<CameraError>,
    /// The frame waiting to be taken.
    pub latest: Option<VideoFrame>,
    /// Whether capture is running.
    pub running: bool,
    /// Number of stop calls observed.
    pub stop_count: u64,
}

/// Fully deterministic source for lifecycle and failure-path tests.
#[derive(Debug)]
pub struct ScriptedFrameSource {
    devices: Vec<CameraDevice>,
    devices_error: Option<CameraError>,
    start_error: Option<CameraError>,
    latest: Option<VideoFrame>,
    running: bool,
    stop_count: u64,
}

impl View for ScriptedFrameSource {
    type V = ScriptedState;

    closed spec fn view(&self) -> ScriptedState {
        ScriptedState {
            devices: self.devices@,
            devices_error: self.devices_error,
            start_error: self.start_error,
            latest: self.latest,
            running: self.running,
            stop_count: self.stop_count,
        }
    }
}

/// Copies a device list, string by string.
fn copy_devices(devices: &Vec<CameraDevice>) -> (copy: Vec<CameraDevice>)
    ensures
        copy@ == devices@,
{
    let mut copy: Vec<CameraDevice> = Vec::new();
    let mut i: usize = 0;
    while i < devices.len()
        invariant
            i <= devices.len(),
            copy@ == devices@.take(i as int),
        decreases devices.len() - i,
    {
        copy.push(CameraDevice { id: devices[i].id.clone(), label: devices[i].label.clone() });
        assert(copy@ =~= devices@.take(i + 1));
        i = i + 1;
    }
    assert(devices@.take(devices.len() as int) =~= devices@);
    copy
}

/// Whether some device has the id `id`.
pub open spec fn has_device(devices: Seq<CameraDevice>, id: Seq<char>) -> bool {
    exists|i: int| 0 <= i < devices.len() && devices[i].id@ == id
}

/// A call on a scripted source, as far as it bears on what the source holds.
pub ghost enum ScriptedCall {
    /// `set_devices_error` with this failure.
    SetDevicesError(Option<CameraError>),
    /// `fail_next_start` with this failure.
    FailNextStart(CameraError),
    /// `push_frame` with this frame.
    PushFrame(VideoFrame),
    /// `stop_count`.
    StopCount,
    /// `devices`.
    Devices,
    /// `start` for this device, if one is named.
    Start(Option<Seq<char>>),
    /// `latest_frame`.
    LatestFrame,
    /// `stop`.
    Stop,
}

/// Whether a start for `device` succeeds on a source holding `state`.
pub open spec fn scripted_start_succeeds(state: ScriptedState, device: Option<Seq<char>>) -> bool {
    state.start_error is None && match device {
        Some(id) => has_device(state.devices, id),
        None => true,
    }
}

/// What a source holds after one call.
pub open spec fn scripted_step(state: ScriptedState, call: ScriptedCall) -> ScriptedState {
    match call {
        ScriptedCall::SetDevicesError(error) => ScriptedState { devices_error: error, ..state },
        ScriptedCall::FailNextStart(error) => ScriptedState { start_error: Some(error), ..state },
        ScriptedCall::PushFrame(frame) => ScriptedState { latest: Some(frame), ..state },
        ScriptedCall::StopCount => state,
        ScriptedCall::Devices => state,
        ScriptedCall::Start(device) => if state.start_error is Some {
            ScriptedState { start_error: None, ..state }
        } else if scripted_start_succeeds(state, device) {
            ScriptedState { running: true, ..state }
        } else {
            state
        },
        ScriptedCall::LatestFrame => if state.running {
            ScriptedState { latest: None, ..state }
        } else {
            state
        },
        ScriptedCall::Stop => ScriptedState {
            running: false,
            latest: None,
            stop_count: if state.stop_count == u64::MAX {
                u64::MAX
            } else {
                (state.stop_count + 1) as u64
            },
            ..state
        },
    }
}

/// What `latest_frame` gives on a source holding `state`: the pending frame while running,
/// nothing otherwise.
pub open spec fn scripted_latest(state: ScriptedState) -> Option<VideoFrame> {
    if state.running {
        state.latest
    } else {
        None
    }
}

/// What a source holds after a sequence of calls.
pub open spec fn scripted_run(state: ScriptedState, calls: Seq<ScriptedCall>) -> ScriptedState
    decreases calls.len(),
{
    if calls.len() == 0 {
        state
    } else {
        scripted_step(scripted_run(state, calls.drop_last()), calls.last())
    }
}

/// The number of `stop` calls in a sequence.
pub open spec fn stop_calls(calls: Seq<ScriptedCall>) -> nat
    decreases calls.len(),
{
    if calls.len() == 0 {
        0
    } else {
        stop_calls(calls.drop_last()) + if calls.last() is Stop {
            1nat
        } else {
            0nat
        }
    }
}

/// A scripted source counts its stops: after any sequence of calls, the count has grown by
/// the number of `stop` calls among them (while it stays below `u64::MAX`).
pub proof fn lemma_stop_count_counts_stops(state: ScriptedState, calls: Seq<ScriptedCall>)
    requires
        state.stop_count + stop_calls(calls) < u64::MAX,
    ensures
        scripted_run(state, calls).stop_count == state.stop_count + stop_calls(calls),
    decreases calls.len(),
{
    if calls.len() > 0 {
        lemma_stop_count_counts_stops(state, calls.drop_last());
    }
}

/// After a stop, a scripted source gives no frame until a start succeeds: along any sequence
/// of calls in which every start fails, `latest_frame` gives nothing.
pub proof fn lemma_no_frame_after_stop(state: ScriptedState, calls: Seq<ScriptedCall>)
    requires
        forall|i: int|
            0 <= i < calls.len() ==> (#[trigger] calls[i] matches ScriptedCall::Start(device)
                ==> !scripted_start_succeeds(
                scripted_run(scripted_step(state, ScriptedCall::Stop), calls.take(i)),
                device,
            )),
    ensures
        !scripted_run(scripted_step(state, ScriptedCall::Stop), calls).running,
        scripted_latest(scripted_run(scripted_step(state, ScriptedCall::Stop), calls)) is None,
    decreases calls.len(),
{
    if calls.len() > 0 {
        let stopped = scripted_step(state, ScriptedCall::Stop);
        let shorter = calls.drop_last();
        assert forall|i: int| 0 <= i < shorter.len() implies (#[trigger] shorter[i] matches ScriptedCall::Start(device)
            ==> !scripted_start_succeeds(scripted_run(stopped, shorter.take(i)), device)) by {
            assert(shorter[i] == calls[i]);
            assert(shorter.take(i) =~= calls.take(i));
        }
        lemma_no_frame_after_stop(state, shorter);
        let last = calls.len() - 1;
        assert(calls.take(last) =~= shorter);
        assert(calls[last] == calls.last());
    }
}

impl ScriptedFrameSource {
    /// Creates a source with the devices returned by enumeration.
    pub fn new(devices: Vec<CameraDevice>) -> (source: ScriptedFrameSource)
        ensures
            source@ == (ScriptedState {
                devices: devices@,
                devices_error: None,
                start_error: None,
                latest: None,
                running: false,
                stop_count: 0,
            }),
    {
        ScriptedFrameSource {
            devices,
            devices_error: None,
            start_error: None,
            latest: None,
            running: false,
            stop_count: 0,
        }
    }

    /// Configures device enumeration to fail until cleared.
    pub fn set_devices_error(&mut self, error: Option<CameraError>)
        ensures
            final(self)@ == (ScriptedState { devices_error: error, ..old(self)@ }),
            final(self)@ == scripted_step(old(self)@, ScriptedCall::SetDevicesError(error)),
    {
        self.devices_error = error;
    }

    /// Configures the next start attempt to fail.
    pub fn fail_next_start(&mut self, error: CameraError)
        ensures
            final(self)@ == (ScriptedState { start_error: Some(error), ..old(self)@ }),
            final(self)@ == scripted_step(old(self)@, ScriptedCall::FailNextStart(error)),
    {
        self.start_error = Some(error);
    }

    /// Replaces the pending frame, matching the bounded production handoff.
    pub fn push_frame(&mut self, frame: VideoFrame)
        ensures
            final(self)@ == (ScriptedState { latest: Some(frame), ..old(self)@ }),
            final(self)@ == scripted_step(old(self)@, ScriptedCall::PushFrame(frame)),
    {
        self.latest = Some(frame);
    }

    /// Returns the number of stop calls observed by the fake.
    pub fn stop_count(&self) -> (count: u64)
        ensures
            count == self@.stop_count,
            self@ == scripted_step(self@, ScriptedCall::StopCount),
    {
        self.stop_count
    }
}

impl Default for ScriptedFrameSource {
    fn default() -> (source: ScriptedFrameSource)
        ensures
            source@ == (ScriptedState {
                devices: Seq::empty(),
                devices_error: None,
                start_error: None,
                latest: None,
                running: false,
                stop_count: 0,
            }),
    {
        ScriptedFrameSource::new(Vec::new())
    }
}

impl FrameSource for ScriptedFrameSource {
    fn devices(&mut self) -> (devices: Result<Vec<CameraDevice>, CameraError>)
        ensures
            match old(self)@.devices_error {
                Some(error) => devices matches Err(e) && e == error,
                None => devices matches Ok(list) && list@ == old(self)@.devices,
            },
            final(self)@ == old(self)@,
            final(self)@ == scripted_step(old(self)@, ScriptedCall::Devices),
    {
        match self.devices_error {
            Some(error) => Err(error),
            None => Ok(copy_devices(&self.devices)),
        }
    }

    fn start(&mut self, device_id: Option<&str>, _request: CaptureRequest) -> (result: Result<
        (),
        CameraError,
    >)
        ensures
            match old(self)@.start_error {
                Some(error) => result == Err::<(), CameraError>(error) && final(self)@ == (
                ScriptedState { start_error: None, ..old(self)@ }),
                None => match device_id {
                    Some(id) if !has_device(old(self)@.devices, id@) => result == Err::<
                        (),
                        CameraError,
                    >(CameraError::DeviceNotFound) && final(self)@ == old(self)@,
                    _ => result is Ok && final(self)@ == (ScriptedState {
                        running: true,
                        ..old(self)@
                    }),
                },
            },
            final(self)@ == scripted_step(
                old(self)@,
                ScriptedCall::Start(
                    match device_id {
                        Some(id) => Some(id@),
                        None => None,
                    },
                ),
            ),
            result is Ok <==> scripted_start_succeeds(
                old(self)@,
                match device_id {
                    Some(id) => Some(id@),
                    None => None,
                },
            ),
    {
        if let Some(error) = self.start_error.take() {
            return Err(error);
        }
        if let Some(device_id) = device_id {
            let mut i: usize = 0;
            let mut found = false;
            while i < self.devices.len()
                invariant
                    i <= self.devices@.len(),
                    found == exists|j: int| 0 <= j < i && self.devices@[j].id@ == device_id@,
                decreases self.devices@.len() - i,
            {
                if crate::text::str_equals(self.devices[i].id.as_str(), device_id) {
                    found = true;
                }
                i = i + 1;
            }
            if !found {
                return Err(CameraError::DeviceNotFound);
            }
        }
        self.running = true;
        Ok(())
    }

    fn latest_frame(&mut self) -> (frame: Result<Option<VideoFrame>, CameraError>)
        ensures
            old(self)@.running ==> frame == Ok::<Option<VideoFrame>, CameraError>(
                old(self)@.latest,
            ) && final(self)@ == (ScriptedState { latest: None, ..old(self)@ }),
            !old(self)@.running ==> frame == Ok::<Option<VideoFrame>, CameraError>(None)
                && final(self)@ == old(self)@,
            frame == Ok::<Option<VideoFrame>, CameraError>(scripted_latest(old(self)@)),
            final(self)@ == scripted_step(old(self)@, ScriptedCall::LatestFrame),
    {
        if self.running {
            Ok(self.latest.take())
        } else {
            Ok(None)
        }
    }

    fn stop(&mut self)
        ensures
            final(self)@ == (ScriptedState {
                running: false,
                latest: None,
                stop_count: if old(self)@.stop_count == u64::MAX {
                    u64::MAX
                } else {
                    (old(self)@.stop_count + 1) as u64
                },
                ..old(self)@
            }),
            final(self)@ == scripted_step(old(self)@, ScriptedCall::Stop),
    {
        self.running = false;
        self.latest = None;
        self.stop_count = if self.stop_count == u64::MAX {
            u64::MAX
        } else {
            self.stop_count + 1
        };
    }
}

/// The number of attempts to start a camera before giving up.
pub const CAMERA_START_ATTEMPTS: u8 = 5;

/// Whether a start failure may go away when the attempt is repeated.
pub open spec fn is_transient(error: CameraError) -> bool {
    error == CameraError::Busy || error == CameraError::Backend
}

/// Whether a start that failed with `error` on attempt number `attempt` (counting from one) is
/// tried again: only busy and backend failures are, and only before the last attempt.
pub fn should_retry_start(attempt: u8, error: CameraError) -> (retry: bool)
    ensures
        retry == (attempt < CAMERA_START_ATTEMPTS && is_transient(error)),
{
    attempt < CAMERA_START_ATTEMPTS && (error == CameraError::Busy || error == CameraError::Backend)
}

/// Whether an outcome of attempt number `attempt` (counting from one) is a failure that
/// [`should_retry_start`] retries.
pub open spec fn is_retried<T>(outcome: Result<T, CameraError>, attempt: int) -> bool {
    match outcome {
        Ok(_) => false,
        Err(error) => attempt < CAMERA_START_ATTEMPTS && is_transient(error),
    }
}

/// Whether a run of start attempts follows the retry policy: there are one to five of them,
/// each before the last failed in a way that [`should_retry_start`] retries, and the last
/// succeeded, failed in a way that retrying cannot fix, or was the fifth.
pub open spec fn follows_retry_policy<T>(outcomes: Seq<Result<T, CameraError>>) -> bool {
    &&& 1 <= outcomes.len() <= CAMERA_START_ATTEMPTS
    &&& forall|i: int| 0 <= i < outcomes.len() - 1 ==> is_retried(#[trigger] outcomes[i], i + 1)
    &&& !is_retried(outcomes.last(), outcomes.len() as int)
}

/// Whether each outcome in a run is one that the closure, as it stood at that attempt, may
/// return.
pub open spec fn returned_by<T, F: FnMut() -> Result<T, CameraError>>(
    closures: Seq<F>,
    outcomes: Seq<Result<T, CameraError>>,
) -> bool {
    &&& closures.len() == outcomes.len()
    &&& forall|i: int| 0 <= i < outcomes.len() ==> #[trigger] closures[i].ensures((), outcomes[i])
}

/// Whether `wait` ran once between each two attempts of a run, each time as the closure then
/// stood, starting from `wait` as given.
pub open spec fn waited_between<W: FnMut()>(pauses: Seq<W>, attempts: nat, wait: W) -> bool {
    &&& pauses.len() + 1 == attempts
    &&& forall|i: int| 0 <= i < pauses.len() ==> #[trigger] pauses[i].ensures((), ())
    &&& pauses.len() > 0 ==> pauses[0] == wait
}

/// Runs `operation` until it succeeds, fails with an error that retrying cannot fix, or has
/// been attempted five times, calling `wait` between attempts. The result is the last of a run
/// of outcomes that follows the retry policy, each one that `operation` (as it stood at that
/// attempt, starting from the closure given) may return, with one wait between each two.
pub fn retry_camera_start<T, F: FnMut() -> Result<T, CameraError>, W: FnMut()>(
    operation: F,
    wait: W,
) -> (result: Result<T, CameraError>)
    requires
        forall|f: F| f.requires(()),
        forall|w: W| w.requires(()),
    ensures
        exists|closures: Seq<F>, outcomes: Seq<Result<T, CameraError>>, pauses: Seq<W>|
            #![trigger returned_by(closures, outcomes), waited_between(pauses, outcomes.len(), wait)]
            follows_retry_policy(outcomes) && returned_by(closures, outcomes)
                && closures[0] == operation && waited_between(pauses, outcomes.len(), wait)
                && result == outcomes.last(),
{
    let mut attempt: u8 = 1;
    let ghost mut outcomes: Seq<Result<T, CameraError>> = Seq::empty();
    let ghost mut closures: Seq<F> = Seq::empty();
    let ghost mut pauses: Seq<W> = Seq::empty();
    let mut run_attempt = operation;
    let mut pause = wait;
    loop
        invariant
            1 <= attempt <= CAMERA_START_ATTEMPTS,
            outcomes.len() == attempt - 1,
            forall|f: F| f.requires(()),
            forall|w: W| w.requires(()),
            forall|i: int| 0 <= i < outcomes.len() ==> is_retried(#[trigger] outcomes[i], i + 1),
            returned_by(closures, outcomes),
            closures.len() > 0 ==> closures[0] == operation,
            closures.len() == 0 ==> run_attempt == operation,
            pauses.len() == attempt - 1,
            forall|i: int| 0 <= i < pauses.len() ==> #[trigger] pauses[i].ensures((), ()),
            pauses.len() > 0 ==> pauses[0] == wait,
            pauses.len() == 0 ==> pause == wait,
        decreases CAMERA_START_ATTEMPTS - attempt,
    {
        let ghost before = run_attempt;
        let outcome = run_attempt();
        proof {
            outcomes = outcomes.push(outcome);
            closures = closures.push(before);
            assert(returned_by(closures, outcomes));
        }
        match outcome {
            Ok(value) => {
                let result = Ok(value);
                assert(result == outcomes.last());
                assert(follows_retry_policy(outcomes));
                assert(waited_between(pauses, outcomes.len(), wait));
                return result;
            },
            Err(error) => {
                if should_retry_start(attempt, error) {
                    let ghost pause_before = pause;
                    pause();
                    proof {
                        pauses = pauses.push(pause_before);
                    }
                    attempt = attempt + 1;
                } else {
                    let result = Err(error);
                    assert(result == outcomes.last());
                    assert(follows_retry_policy(outcomes));
                    assert(waited_between(pauses, outcomes.len(), wait));
                    return result;
                }
            },
        }
    }
}

} // verus!
