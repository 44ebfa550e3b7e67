use camlet::appearance::{AppearanceSettings, OverlayShape};
use camlet::camera::VideoFrame;
use camlet::gpu_overlay::{self, shape_id, OverlayProgram};
use camlet::renderer::{byte_len, pixel_index, validate_source_frame, RenderError};

fn frame(width: u32, height: u32, bytes: usize) -> VideoFrame {
    VideoFrame {
        width,
        height,
        sequence: 0,
        rgba: vec![0; bytes],
    }
}

#[test]
fn malformed_sources_are_rejected_before_rendering() {
    assert_eq!(
        validate_source_frame(&frame(10, 10, 10)),
        Err(RenderError::InvalidSourceFrame)
    );
    assert_eq!(validate_source_frame(&frame(10, 10, 400)), Ok(()));
    assert_eq!(
        validate_source_frame(&frame(0, 10, 0)),
        Err(RenderError::InvalidSourceFrame)
    );
    assert_eq!(
        gpu_overlay::validate_source_frame(&frame(2, 2, 15)),
        Err("invalid source frame")
    );
    assert_eq!(gpu_overlay::validate_source_frame(&frame(2, 2, 16)), Ok(()));
}

#[test]
fn byte_offsets_are_exact_or_absent() {
    assert_eq!(byte_len(224, 224), Some(224 * 224 * 4));
    assert_eq!(pixel_index(3, 2, 10), Some((2 * 10 + 3) * 4));
    assert_eq!(pixel_index(u32::MAX, u32::MAX, u32::MAX), None);
    assert_eq!(RenderError::InvalidOutputSize.message(), "invalid overlay output size");
}

#[test]
fn drawing_copies_the_frame_into_an_owned_primitive() {
    let source = frame(1, 1, 4);
    let appearance = AppearanceSettings::default();
    let program = OverlayProgram::new(&source, &appearance, 9);
    let primitive = program.primitive();
    assert_eq!((primitive.source_width, primitive.source_height), (1, 1));
    assert_eq!(primitive.frame_revision, 9);
    assert_eq!(primitive.rgba, source.rgba);
    assert_eq!(shape_id(OverlayShape::Diamond), 3);
    assert_eq!(shape_id(OverlayShape::RectangleX), 5);
}
