//! Geometry checks shared by the reference renderer: the frames it accepts and the byte
//! offsets it writes. The anti-aliased shading itself works in floating point and lives with
//! the application.

use vstd::prelude::*;
use crate::camera::VideoFrame;

verus! {

/// The largest overlay the reference renderer produces, in physical pixels per side.
pub const MAXIMUM_RENDER_SIZE: u32 = 2_048;

/// A complete premultiplied RGBA overlay produced by the reference renderer.
#[derive(Debug, Clone, PartialEq, Eq)]
pub struct RenderedFrame {
    /// Physical width.
    pub width: u32,
    /// Physical height.
    pub height: u32,
    /// Premultiplied sRGB RGBA bytes.
    pub rgba: Vec<u8>,
}

/// Invalid source or output geometry.
#[derive(Debug, Clone, Copy, PartialEq, Eq, Structural)]
pub enum RenderError {
    /// Output size was zero or exceeded the guarded implementation limit.
    InvalidOutputSize,
    /// Source dimensions and RGBA length disagreed.
    InvalidSourceFrame,
}

impl RenderError {
    /// The message shown for the error.
    pub fn message(&self) -> (text: &'static str)
        ensures
            text@ == (match *self {
                RenderError::InvalidOutputSize => "invalid overlay output size"@,
                RenderError::InvalidSourceFrame => "invalid source frame"@,
            }),
    {
        match self {
            RenderError::InvalidOutputSize => "invalid overlay output size",
            RenderError::InvalidSourceFrame => "invalid source frame",
        }
    }
}

/// The RGBA byte count of a `width × height` image, when it fits in `usize`.
pub open spec fn spec_byte_len(width: u32, height: u32) -> Option<usize> {
    if width * height * 4 <= usize::MAX {
        Some((width * height * 4) as usize)
    } else {
        None
    }
}

/// The RGBA byte count of a `width × height` image, when it fits in `usize`.
pub fn byte_len(width: u32, height: u32) -> (bytes: Option<usize>)
    ensures
        bytes == spec_byte_len(width, height),
{
    let pixels = match (width as usize).checked_mul(height as usize) {
        Some(pixels) => pixels,
        None => {
            assert(width * height * 4 > usize::MAX) by (nonlinear_arith)
                requires
                    width * height > usize::MAX,
            ;
            return None;
        },
    };
    pixels.checked_mul(4)
}

/// The offset of the first byte of pixel `(x, y)` in a `width`-pixel-wide RGBA image, when it
/// fits in `u64` and in `usize`.
pub open spec fn spec_pixel_index(x: u32, y: u32, width: u32) -> Option<usize> {
    let offset = (y * width + x) * 4;
    if y * width + x <= u64::MAX && offset <= u64::MAX && offset <= usize::MAX {
        Some(offset as usize)
    } else {
        None
    }
}

/// The offset of the first byte of pixel `(x, y)` in a `width`-pixel-wide RGBA image.
pub fn pixel_index(x: u32, y: u32, width: u32) -> (index: Option<usize>)
    ensures
        index == spec_pixel_index(x, y, width),
{
    assert(y * width <= 0xFFFF_FFFFu64 * 0xFFFF_FFFFu64) by (nonlinear_arith)
        requires
            y <= 0xFFFF_FFFFu64,
            width <= 0xFFFF_FFFFu64,
    ;
    let row = (y as u64) * (width as u64);
    let pixel = match row.checked_add(x as u64) {
        Some(pixel) => pixel,
        None => return None,
    };
    let offset = match pixel.checked_mul(4) {
        Some(offset) => offset,
        None => return None,
    };
    if offset > usize::MAX as u64 {
        return None;
    }
    Some(offset as usize)
}

/// Whether a source frame can be rendered: nonempty, with exactly four bytes per pixel.
pub open spec fn source_frame_valid(source: VideoFrame) -> bool {
    &&& source.width > 0
    &&& source.height > 0
    &&& spec_byte_len(source.width, source.height) == Some(source.rgba@.len() as usize)
}

/// Rejects an empty frame or one whose byte count disagrees with its dimensions.
pub fn validate_source_frame(source: &VideoFrame) -> (result: Result<(), RenderError>)
    ensures
        result is Ok <==> source_frame_valid(*source),
        result matches Err(e) ==> e == RenderError::InvalidSourceFrame,
{
    let expected = match byte_len(source.width, source.height) {
        Some(bytes) => bytes,
        None => return Err(RenderError::InvalidSourceFrame),
    };
    if source.width == 0 || source.height == 0 || source.rgba.len() != expected {
        return Err(RenderError::InvalidSourceFrame);
    }
    Ok(())
}

} // verus!
