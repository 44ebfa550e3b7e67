//! What the live compositor hands to the GPU: the scene borrowed for one draw, the owned
//! primitive submitted for it, and the checks made before any pixel is uploaded. The pipeline
//! itself lives with the application.

use vstd::prelude::*;
use crate::appearance::{AppearanceSettings, OverlayShape};
use crate::camera::VideoFrame;

verus! {

/// A borrowed live-overlay scene. Drawing creates an owned primitive.
#[derive(Debug, Clone, Copy)]
pub struct OverlayProgram<'a> {
    /// The camera frame to show.
    pub source: &'a VideoFrame,
    /// The look of the overlay.
    pub appearance: &'a AppearanceSettings,
    /// Changes whenever the frame does, so that unchanged frames are not uploaded again.
    pub frame_revision: u64,
}

impl<'a> OverlayProgram<'a> {
    /// Creates a live scene.
    pub fn new(source: &'a VideoFrame, appearance: &'a AppearanceSettings, frame_revision: u64) -> (program:
        OverlayProgram<'a>)
        ensures
            program.source == source,
            program.appearance == appearance,
            program.frame_revision == frame_revision,
    {
        OverlayProgram { source, appearance, frame_revision }
    }

    /// The owned primitive submitted for one draw: the frame's pixels and the appearance.
    pub fn primitive(&self) -> (primitive: OverlayPrimitive)
        ensures
            primitive.source_width == self.source.width,
            primitive.source_height == self.source.height,
            primitive.frame_revision == self.frame_revision,
            primitive.rgba@ == self.source.rgba@,
            primitive.appearance == *self.appearance,
    {
        let mut rgba: Vec<u8> = Vec::new();
        let mut i: usize = 0;
        while i < self.source.rgba.len()
            invariant
                i <= self.source.rgba.len(),
                rgba@ == self.source.rgba@.take(i as int),
            decreases self.source.rgba.len() - i,
        {
            rgba.push(self.source.rgba[i]);
            assert(rgba@ =~= self.source.rgba@.take(i + 1));
            i = i + 1;
        }
        assert(self.source.rgba@.take(self.source.rgba.len() as int) =~= self.source.rgba@);
        OverlayPrimitive {
            source_width: self.source.width,
            source_height: self.source.height,
            frame_revision: self.frame_revision,
            rgba,
            appearance: *self.appearance,
        }
    }
}

/// One owned frame submitted to the shared GPU pipeline.
#[derive(Debug)]
pub struct OverlayPrimitive {
    /// Source frame width.
    pub source_width: u32,
    /// Source frame height.
    pub source_height: u32,
    /// The revision of the frame.
    pub frame_revision: u64,
    /// The frame's RGBA pixels.
    pub rgba: Vec<u8>,
    /// The look of the overlay.
    pub appearance: AppearanceSettings,
}

/// Whether a frame may be uploaded: nonempty, with exactly four bytes per pixel and a byte
/// count that fits in `usize`.
pub open spec fn uploadable(source: VideoFrame) -> bool {
    &&& source.width > 0
    &&& source.height > 0
    &&& source.width * source.height * 4 <= usize::MAX
    &&& source.rgba@.len() == source.width * source.height * 4
}

/// Rejects malformed frame dimensions before any pixels reach the GPU.
pub fn validate_source_frame(source: &VideoFrame) -> (result: Result<(), &'static str>)
    ensures
        result is Ok <==> uploadable(*source),
        result matches Err(message) ==> message@ == "invalid source frame"@,
{
    let expected = match crate::renderer::byte_len(source.width, source.height) {
        Some(bytes) => bytes,
        None => return Err("invalid source frame"),
    };
    if source.width == 0 || source.height == 0 || source.rgba.len() != expected {
        return Err("invalid source frame");
    }
    Ok(())
}

/// The number by which the shader tells the shapes apart.
pub open spec fn spec_shape_id(shape: OverlayShape) -> u32 {
    match shape {
        OverlayShape::Original => 0,
        OverlayShape::Circle => 1,
        OverlayShape::RoundedSquare => 2,
        OverlayShape::Diamond => 3,
        OverlayShape::RectangleY => 4,
        OverlayShape::RectangleX => 5,
    }
}

/// The number by which the shader tells the shapes apart.
pub fn shape_id(shape: OverlayShape) -> (id: u32)
    ensures
        id == spec_shape_id(shape),
{
    match shape {
        OverlayShape::Original => 0,
        OverlayShape::Circle => 1,
        OverlayShape::RoundedSquare => 2,
        OverlayShape::Diamond => 3,
        OverlayShape::RectangleY => 4,
        OverlayShape::RectangleX => 5,
    }
}

} // verus!
