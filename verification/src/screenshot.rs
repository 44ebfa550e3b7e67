//! Checks made on compositor captures of the overlay, and their flattening onto white for a
//! portable image, with no image-decoder dependency.

use vstd::prelude::*;
use crate::renderer::{RenderError, RenderedFrame};

verus! {

/// A captured window image: tightly packed RGBA rows.
#[derive(Debug, Clone, PartialEq, Eq)]
pub struct Screenshot {
    /// Width in physical pixels.
    pub width: u32,
    /// Height in physical pixels.
    pub height: u32,
    /// RGBA bytes, row by row.
    pub rgba: Vec<u8>,
}

/// Why a capture was refused.
#[derive(Debug, Clone, Copy, PartialEq, Eq, Structural)]
pub enum ScreenshotError {
    /// Screenshot dimensions and RGBA length disagreed.
    InvalidBytes,
    /// The capture did not preserve the overlay's transparent host corners.
    InvalidTransparency,
    /// The live shader disagreed with the deterministic alpha oracle.
    ReferenceMismatch,
}

impl ScreenshotError {
    /// The message shown for the error.
    pub fn message(&self) -> (text: &'static str)
        ensures
            text@ == spec_screenshot_error_message(*self),
    {
        match self {
            ScreenshotError::InvalidBytes => "screenshot has malformed RGBA bytes",
            ScreenshotError::InvalidTransparency => "overlay screenshot has an opaque corner or transparent center",
            ScreenshotError::ReferenceMismatch => "overlay screenshot differs from the reference renderer",
        }
    }
}

/// The message shown for a screenshot error.
pub open spec fn spec_screenshot_error_message(error: ScreenshotError) -> Seq<char> {
    match error {
        ScreenshotError::InvalidBytes => "screenshot has malformed RGBA bytes"@,
        ScreenshotError::InvalidTransparency => "overlay screenshot has an opaque corner or transparent center"@,
        ScreenshotError::ReferenceMismatch => "overlay screenshot differs from the reference renderer"@,
    }
}

/// The byte count of `pixels` RGBA pixels, if it fits in `usize`.
fn rgba_byte_count(pixels: usize) -> (bytes: Option<usize>)
    ensures
        bytes matches Some(n) ==> n == pixels * 4,
        bytes is None ==> pixels * 4 > usize::MAX,
{
    pixels.checked_mul(4)
}

/// Whether `rgba` holds exactly `width × height` pixels, with a byte count that fits in
/// `usize`.
pub open spec fn rgba_matches(rgba: Seq<u8>, width: int, height: int) -> bool {
    width * height * 4 <= usize::MAX && rgba.len() == width * height * 4
}

/// The alpha byte of pixel `(x, y)` of a `width`-pixel-wide image.
pub open spec fn alpha_at(rgba: Seq<u8>, width: int, x: int, y: int) -> u8 {
    rgba[(y * width + x) * 4 + 3]
}

/// Whether alpha rises toward the center along the vertical line through it: walking inward
/// from either edge, a value may not drop by more than one.
pub open spec fn column_rises_to_center(rgba: Seq<u8>, width: int, height: int) -> bool {
    let cx = width / 2;
    let cy = height / 2;
    &&& forall|y: int|
        0 <= y < cy ==> #[trigger] alpha_at(rgba, width, cx, y) <= alpha_at(rgba, width, cx, y + 1)
            + 1
    &&& forall|y: int|
        cy <= y < height - 1 ==> #[trigger] alpha_at(rgba, width, cx, y + 1) <= alpha_at(
            rgba,
            width,
            cx,
            y,
        ) + 1
}

/// Whether alpha rises toward the center along the horizontal line through it.
pub open spec fn row_rises_to_center(rgba: Seq<u8>, width: int, height: int) -> bool {
    let cx = width / 2;
    let cy = height / 2;
    &&& forall|x: int|
        0 <= x < cx ==> #[trigger] alpha_at(rgba, width, x, cy) <= alpha_at(rgba, width, x + 1, cy)
            + 1
    &&& forall|x: int|
        cx <= x < width - 1 ==> #[trigger] alpha_at(rgba, width, x + 1, cy) <= alpha_at(
            rgba,
            width,
            x,
            cy,
        ) + 1
}

/// Whether the four edges are transparent and the center is nearly opaque.
pub open spec fn corners_clear_center_opaque(rgba: Seq<u8>, w: int, h: int) -> bool {
    &&& alpha_at(rgba, w, 0, 0) == 0
    &&& alpha_at(rgba, w, w - 1, 0) == 0
    &&& alpha_at(rgba, w, 0, h - 1) == 0
    &&& alpha_at(rgba, w, w - 1, h - 1) == 0
    &&& alpha_at(rgba, w, w / 2, h / 2) >= 250
}

/// What the transparency check says of a capture.
pub open spec fn spec_validate_transparent_overlay(shot: Screenshot) -> Result<(), ScreenshotError> {
    let (w, h, rgba) = (shot.width as int, shot.height as int, shot.rgba@);
    if w == 0 || h == 0 || !rgba_matches(rgba, w, h) {
        Err(ScreenshotError::InvalidBytes)
    } else if !corners_clear_center_opaque(rgba, w, h) {
        Err(ScreenshotError::InvalidTransparency)
    } else if !column_rises_to_center(rgba, w, h) || !row_rises_to_center(rgba, w, h) {
        Err(ScreenshotError::InvalidTransparency)
    } else {
        Ok(())
    }
}

/// The alpha position of a pixel lies inside an image of `width × height` pixels.
proof fn lemma_alpha_index(width: int, height: int, x: int, y: int)
    requires
        0 <= x < width,
        0 <= y < height,
    ensures
        0 <= y * width,
        0 <= (y * width + x) * 4 + 3 < width * height * 4,
        y * width + x < width * height,
{
    assert(y * width <= (height - 1) * width) by (nonlinear_arith)
        requires
            0 <= y <= height - 1,
            0 <= width,
    ;
    assert((height - 1) * width == width * height - width) by (nonlinear_arith);
    assert(0 <= y * width) by (nonlinear_arith)
        requires
            0 <= y,
            0 <= width,
    ;
}

/// Reads the alpha of pixel `(x, y)`.
fn read_alpha(rgba: &Vec<u8>, width: usize, height: usize, x: usize, y: usize) -> (alpha: u8)
    requires
        x < width,
        y < height,
        width * height * 4 == rgba@.len(),
    ensures
        alpha == alpha_at(rgba@, width as int, x as int, y as int),
{
    let length = rgba.len();
    proof {
        lemma_alpha_index(width as int, height as int, x as int, y as int);
    }
    rgba[(y * width + x) * 4 + 3]
}

/// Whether the vertical center line rises toward the center.
fn column_check(rgba: &Vec<u8>, width: usize, height: usize) -> (rises: bool)
    requires
        width > 0,
        height > 0,
        width * height * 4 == rgba@.len(),
    ensures
        rises == column_rises_to_center(rgba@, width as int, height as int),
{
    let cx = width / 2;
    let cy = height / 2;
    let mut y: usize = 0;
    while y < cy
        invariant
            width > 0,
            width * height * 4 == rgba@.len(),
            cx == width / 2,
            cy == height / 2,
            y <= cy,
            forall|k: int|
                0 <= k < y ==> #[trigger] alpha_at(rgba@, width as int, cx as int, k) <= alpha_at(
                    rgba@,
                    width as int,
                    cx as int,
                    k + 1,
                ) + 1,
        decreases cy - y,
    {
        let outer = read_alpha(rgba, width, height, cx, y);
        let inner = read_alpha(rgba, width, height, cx, y + 1);
        if inner as u16 + 1 < outer as u16 {
            return false;
        }
        y = y + 1;
    }
    let mut y: usize = cy;
    while y + 1 < height
        invariant
            width > 0,
            width * height * 4 == rgba@.len(),
            cx == width / 2,
            cy == height / 2,
            cy <= y < height,
            forall|k: int|
                0 <= k < cy ==> #[trigger] alpha_at(rgba@, width as int, cx as int, k) <= alpha_at(
                    rgba@,
                    width as int,
                    cx as int,
                    k + 1,
                ) + 1,
            forall|k: int|
                cy <= k < y ==> #[trigger] alpha_at(rgba@, width as int, cx as int, k + 1)
                    <= alpha_at(rgba@, width as int, cx as int, k) + 1,
        decreases height - y,
    {
        let outer = read_alpha(rgba, width, height, cx, y + 1);
        let inner = read_alpha(rgba, width, height, cx, y);
        if inner as u16 + 1 < outer as u16 {
            return false;
        }
        y = y + 1;
    }
    true
}

/// Whether the horizontal center line rises toward the center.
fn row_check(rgba: &Vec<u8>, width: usize, height: usize) -> (rises: bool)
    requires
        width > 0,
        height > 0,
        width * height * 4 == rgba@.len(),
    ensures
        rises == row_rises_to_center(rgba@, width as int, height as int),
{
    let cx = width / 2;
    let cy = height / 2;
    let mut x: usize = 0;
    while x < cx
        invariant
            height > 0,
            width * height * 4 == rgba@.len(),
            cx == width / 2,
            cy == height / 2,
            x <= cx,
            forall|k: int|
                0 <= k < x ==> #[trigger] alpha_at(rgba@, width as int, k, cy as int) <= alpha_at(
                    rgba@,
                    width as int,
                    k + 1,
                    cy as int,
                ) + 1,
        decreases cx - x,
    {
        let outer = read_alpha(rgba, width, height, x, cy);
        let inner = read_alpha(rgba, width, height, x + 1, cy);
        if inner as u16 + 1 < outer as u16 {
            return false;
        }
        x = x + 1;
    }
    let mut x: usize = cx;
    while x + 1 < width
        invariant
            height > 0,
            width * height * 4 == rgba@.len(),
            cx == width / 2,
            cy == height / 2,
            cx <= x < width,
            forall|k: int|
                0 <= k < cx ==> #[trigger] alpha_at(rgba@, width as int, k, cy as int) <= alpha_at(
                    rgba@,
                    width as int,
                    k + 1,
                    cy as int,
                ) + 1,
            forall|k: int|
                cx <= k < x ==> #[trigger] alpha_at(rgba@, width as int, k + 1, cy as int)
                    <= alpha_at(rgba@, width as int, k, cy as int) + 1,
        decreases width - x,
    {
        let outer = read_alpha(rgba, width, height, x + 1, cy);
        let inner = read_alpha(rgba, width, height, x, cy);
        if inner as u16 + 1 < outer as u16 {
            return false;
        }
        x = x + 1;
    }
    true
}

/// Checks the minimum compositor contract of the transparent overlay: well-formed bytes,
/// fully transparent corners, a nearly opaque center, and alpha that never drops by more than
/// one on the way from an edge to the center along the two center lines.
pub fn validate_transparent_overlay(shot: &Screenshot) -> (result: Result<(), ScreenshotError>)
    ensures
        result == spec_validate_transparent_overlay(*shot),
{
    let width = shot.width as usize;
    let height = shot.height as usize;
    let pixel_count = match width.checked_mul(height) {
        Some(count) => count,
        None => return Err(ScreenshotError::InvalidBytes),
    };
    let expected = match rgba_byte_count(pixel_count) {
        Some(bytes) => bytes,
        None => return Err(ScreenshotError::InvalidBytes),
    };
    if width == 0 || height == 0 || shot.rgba.len() != expected {
        return Err(ScreenshotError::InvalidBytes);
    }
    let rgba = &shot.rgba;
    if read_alpha(rgba, width, height, 0, 0) != 0 || read_alpha(rgba, width, height, width - 1, 0)
        != 0 || read_alpha(rgba, width, height, 0, height - 1) != 0 || read_alpha(
        rgba,
        width,
        height,
        width - 1,
        height - 1,
    ) != 0 || read_alpha(rgba, width, height, width / 2, height / 2) < 250 {
        return Err(ScreenshotError::InvalidTransparency);
    }
    if !column_check(rgba, width, height) || !row_check(rgba, width, height) {
        return Err(ScreenshotError::InvalidTransparency);
    }
    Ok(())
}

/// What the comparison with the reference renderer says of a capture.
pub open spec fn spec_validate_reference_alpha(
    shot: Screenshot,
    reference_width: u32,
    reference_height: u32,
    reference_rgba: Seq<u8>,
    tolerance: u8,
) -> Result<(), ScreenshotError> {
    let (w, h) = (reference_width as int, reference_height as int);
    if shot.width != reference_width || shot.height != reference_height {
        Err(ScreenshotError::ReferenceMismatch)
    } else if !rgba_matches(shot.rgba@, w, h) || !rgba_matches(reference_rgba, w, h) {
        Err(ScreenshotError::ReferenceMismatch)
    } else if exists|i: int|
        0 <= i < w * h && {
            let (a, b) = (shot.rgba@[4 * i + 3] as int, #[trigger] reference_rgba[4 * i + 3] as int);
            a - b > tolerance || b - a > tolerance
        } {
        Err(ScreenshotError::ReferenceMismatch)
    } else {
        Ok(())
    }
}

#[verifier::loop_isolation(false)]
/// Compares every captured alpha value with a tightly packed RGBA reference of the same size;
/// they may differ by at most `tolerance`.
pub fn validate_reference_alpha(
    shot: &Screenshot,
    reference_width: u32,
    reference_height: u32,
    reference_rgba: &Vec<u8>,
    tolerance: u8,
) -> (result: Result<(), ScreenshotError>)
    ensures
        result == spec_validate_reference_alpha(
            *shot,
            reference_width,
            reference_height,
            reference_rgba@,
            tolerance,
        ),
{
    if shot.width != reference_width || shot.height != reference_height {
        return Err(ScreenshotError::ReferenceMismatch);
    }
    let pixel_count = match (reference_width as usize).checked_mul(reference_height as usize) {
        Some(count) => count,
        None => return Err(ScreenshotError::ReferenceMismatch),
    };
    let expected = match rgba_byte_count(pixel_count) {
        Some(bytes) => bytes,
        None => return Err(ScreenshotError::ReferenceMismatch),
    };
    if shot.rgba.len() != expected || reference_rgba.len() != expected {
        return Err(ScreenshotError::ReferenceMismatch);
    }
    let mut i: usize = 0;
    while i < pixel_count
        invariant
            i <= pixel_count,
            pixel_count == reference_width * reference_height,
            shot.rgba@.len() == pixel_count * 4,
            reference_rgba@.len() == pixel_count * 4,
            forall|k: int|
                0 <= k < i ==> {
                    let (a, b) = (
                        shot.rgba@[4 * k + 3] as int,
                        #[trigger] reference_rgba@[4 * k + 3] as int,
                    );
                    !(a - b > tolerance || b - a > tolerance)
                },
        decreases pixel_count - i,
    {
        let actual = shot.rgba[4 * i + 3];
        let wanted = reference_rgba[4 * i + 3];
        let difference = if actual >= wanted {
            actual - wanted
        } else {
            wanted - actual
        };
        if difference > tolerance {
            return Err(ScreenshotError::ReferenceMismatch);
        }
        i = i + 1;
    }
    Ok(())
}

/// How far a live capture's alpha may stray from the reference renderer's.
pub const LIVE_ALPHA_TOLERANCE: u8 = 2;

/// What a live capture's check says once the capture has passed the transparency check and is
/// square: a reference that could not be rendered is a mismatch; otherwise the alpha values
/// are compared within [`LIVE_ALPHA_TOLERANCE`].
pub open spec fn spec_against_reference(
    shot: Screenshot,
    reference: Result<RenderedFrame, RenderError>,
) -> Result<(), ScreenshotError> {
    match reference {
        Err(_) => Err(ScreenshotError::ReferenceMismatch),
        Ok(frame) => spec_validate_reference_alpha(
            shot,
            frame.width,
            frame.height,
            frame.rgba@,
            LIVE_ALPHA_TOLERANCE,
        ),
    }
}

/// Checks a live capture of the overlay: it must pass the transparency check, be square, and
/// match the reference rendering at its side, which `render_reference` makes (from the frame
/// on screen and the appearance) and is asked for only once the first two checks passed.
pub fn validate_live_screenshot<R: FnOnce(u32) -> Result<RenderedFrame, RenderError>>(
    shot: &Screenshot,
    render_reference: R,
) -> (result: Result<(), ScreenshotError>)
    requires
        render_reference.requires((shot.width,)),
    ensures
        spec_validate_transparent_overlay(*shot) is Err ==> result == spec_validate_transparent_overlay(
            *shot,
        ),
        spec_validate_transparent_overlay(*shot) is Ok && shot.width != shot.height ==> result
            == Err::<(), ScreenshotError>(ScreenshotError::ReferenceMismatch),
        spec_validate_transparent_overlay(*shot) is Ok && shot.width == shot.height ==> exists|
            reference: Result<RenderedFrame, RenderError>,
        |
            render_reference.ensures((shot.width,), reference) && result == spec_against_reference(
                *shot,
                reference,
            ),
{
    match validate_transparent_overlay(shot) {
        Err(error) => return Err(error),
        Ok(()) => {},
    }
    if shot.width != shot.height {
        return Err(ScreenshotError::ReferenceMismatch);
    }
    let reference = render_reference(shot.width);
    let ghost made = reference;
    let result = match reference {
        Err(_) => Err(ScreenshotError::ReferenceMismatch),
        Ok(frame) => validate_reference_alpha(
            shot,
            frame.width,
            frame.height,
            &frame.rgba,
            LIVE_ALPHA_TOLERANCE,
        ),
    };
    assert(render_reference.ensures((shot.width,), made) && result == spec_against_reference(
        *shot,
        made,
    ));
    result
}

/// One color channel flattened onto white with rounding: `(c·a + 255·(255 − a) + 127) / 255`.
pub open spec fn over_white(channel: u8, alpha: u8) -> u8 {
    ((channel * alpha + 255 * (255 - alpha) + 127) / 255) as u8
}

/// The RGB bytes of a capture flattened onto white, pixel by pixel.
pub open spec fn white_background_rgb(rgba: Seq<u8>) -> Seq<u8> {
    Seq::new(
        (rgba.len() / 4 * 3) as nat,
        |j: int| over_white(rgba[(j / 3) * 4 + j % 3], rgba[(j / 3) * 4 + 3]),
    )
}

/// Flattening onto white keeps an opaque pixel's color and turns a transparent pixel white.
pub proof fn lemma_over_white_extremes(channel: u8)
    ensures
        over_white(channel, 255) == channel,
        over_white(channel, 0) == 255,
{
    assert((channel * 255 + 127) / 255 == channel) by (nonlinear_arith)
        requires
            channel <= 255,
    ;
}

fn flatten_channel(channel: u8, alpha: u8) -> (flat: u8)
    ensures
        flat == over_white(channel, alpha),
{
    let c = channel as u32;
    let a = alpha as u32;
    assert(c * a <= 255 * a) by (nonlinear_arith)
        requires
            c <= 255,
    ;
    assert(c * a + 255 * (255 - a) + 127 <= 255 * 255 + 127) by (nonlinear_arith)
        requires
            c * a <= 255 * a,
            a <= 255,
    ;
    let value = (c * a + 255 * (255 - a) + 127) / 255;
    assert(value <= 255);
    value as u8
}

#[verifier::loop_isolation(false)]
/// The pixel bytes of a portable image of the capture over white: each pixel's RGB flattened
/// with its alpha. Malformed captures are refused.
pub fn white_background_pixels(shot: &Screenshot) -> (pixels: Result<Vec<u8>, ScreenshotError>)
    ensures
        match pixels {
            Ok(rgb) => rgba_matches(shot.rgba@, shot.width as int, shot.height as int) && rgb@
                == white_background_rgb(shot.rgba@),
            Err(error) => !rgba_matches(shot.rgba@, shot.width as int, shot.height as int)
                && error == ScreenshotError::InvalidBytes,
        },
{
    let pixel_count = match (shot.width as usize).checked_mul(shot.height as usize) {
        Some(count) => count,
        None => return Err(ScreenshotError::InvalidBytes),
    };
    let expected = match rgba_byte_count(pixel_count) {
        Some(bytes) => bytes,
        None => return Err(ScreenshotError::InvalidBytes),
    };
    if shot.rgba.len() != expected {
        return Err(ScreenshotError::InvalidBytes);
    }
    let rgba = &shot.rgba;
    let mut out: Vec<u8> = Vec::new();
    let mut p: usize = 0;
    while p < pixel_count
        invariant
            p <= pixel_count,
            rgba@.len() == pixel_count * 4,
            out@.len() == p * 3,
            forall|j: int|
                0 <= j < p * 3 ==> #[trigger] out@[j] == over_white(
                    rgba@[(j / 3) * 4 + j % 3],
                    rgba@[(j / 3) * 4 + 3],
                ),
        decreases pixel_count - p,
    {
        let alpha = rgba[4 * p + 3];
        let mut c: usize = 0;
        while c < 3
            invariant
                p < pixel_count,
                rgba@.len() == pixel_count * 4,
                alpha == rgba@[4 * p + 3],
                c <= 3,
                out@.len() == p * 3 + c,
                forall|j: int|
                    0 <= j < p * 3 + c ==> #[trigger] out@[j] == over_white(
                        rgba@[(j / 3) * 4 + j % 3],
                        rgba@[(j / 3) * 4 + 3],
                    ),
            decreases 3 - c,
        {
            let j: Ghost<int> = Ghost(p * 3 + c);
            assert(j@ / 3 == p && j@ % 3 == c) by (nonlinear_arith)
                requires
                    j@ == p * 3 + c,
                    c < 3,
            ;
            out.push(flatten_channel(rgba[4 * p + c], alpha));
            c = c + 1;
        }
        p = p + 1;
    }
    assert(out@ =~= white_background_rgb(rgba@)) by {
        assert(rgba@.len() / 4 * 3 == pixel_count * 3) by (nonlinear_arith)
            requires
                rgba@.len() == pixel_count * 4,
        ;
    }
    Ok(out)
}

} // verus!
