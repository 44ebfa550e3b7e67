use camlet::renderer::{RenderError, RenderedFrame};
use camlet::screenshot::{
    validate_live_screenshot, validate_reference_alpha, validate_transparent_overlay,
    white_background_pixels, Screenshot, ScreenshotError, LIVE_ALPHA_TOLERANCE,
};

fn shot(width: u32, height: u32, rgba: Vec<u8>) -> Screenshot {
    Screenshot {
        width,
        height,
        rgba,
    }
}

#[test]
fn validates_transparent_corners_and_opaque_center() {
    let mut rgba = vec![0; 3 * 3 * 4];
    rgba[19] = u8::MAX;
    assert!(validate_transparent_overlay(&shot(3, 3, rgba)).is_ok());
}

#[test]
fn rejects_opaque_host_corner() {
    let mut rgba = vec![0; 3 * 3 * 4];
    rgba[3] = u8::MAX;
    rgba[19] = u8::MAX;
    assert!(matches!(
        validate_transparent_overlay(&shot(3, 3, rgba)),
        Err(ScreenshotError::InvalidTransparency)
    ));
}

#[test]
fn rejects_a_cardinal_axis_notch() {
    let size = 7_usize;
    let mut rgba = vec![0; size * size * 4];
    for y in 0..size {
        for x in 0..size {
            let distance = x.abs_diff(3).pow(2) + y.abs_diff(3).pow(2);
            if distance <= 9 {
                rgba[(y * size + x) * 4 + 3] = u8::MAX;
            }
        }
    }
    rgba[(2 * size + 3) * 4 + 3] = 100;
    assert!(matches!(
        validate_transparent_overlay(&shot(7, 7, rgba)),
        Err(ScreenshotError::InvalidTransparency)
    ));
}

#[test]
fn malformed_captures_are_refused() {
    assert_eq!(
        validate_transparent_overlay(&shot(0, 3, Vec::new())),
        Err(ScreenshotError::InvalidBytes)
    );
    assert_eq!(
        validate_transparent_overlay(&shot(2, 2, vec![0; 15])),
        Err(ScreenshotError::InvalidBytes)
    );
    assert_eq!(
        white_background_pixels(&shot(2, 2, vec![0; 15])),
        Err(ScreenshotError::InvalidBytes)
    );
}

#[test]
fn writes_rgba_composited_over_white() {
    let pixels = white_background_pixels(&shot(2, 1, vec![255, 0, 0, 255, 0, 0, 0, 0]))
        .unwrap_or_else(|error| unreachable!("{error:?}"));
    assert!(pixels.ends_with(&[255, 0, 0, 255, 255, 255]));
    let half = white_background_pixels(&shot(1, 1, vec![0, 100, 255, 128]))
        .unwrap_or_else(|error| unreachable!("{error:?}"));
    assert_eq!(half, vec![127, 177, 255]);
}

#[test]
fn reference_alpha_comparison_has_an_explicit_edge_tolerance() {
    let capture = shot(1, 1, vec![1, 2, 3, 128]);
    assert!(validate_reference_alpha(&capture, 1, 1, &vec![9, 8, 7, 126], 2).is_ok());
    assert!(matches!(
        validate_reference_alpha(&capture, 1, 1, &vec![9, 8, 7, 125], 2),
        Err(ScreenshotError::ReferenceMismatch)
    ));
    assert_eq!(
        validate_reference_alpha(&capture, 2, 1, &vec![0; 8], 2),
        Err(ScreenshotError::ReferenceMismatch)
    );
}

fn centered_dot(size: usize, center_alpha: u8) -> Vec<u8> {
    let mut rgba = vec![0; size * size * 4];
    rgba[((size / 2) * size + size / 2) * 4 + 3] = center_alpha;
    rgba
}

#[test]
fn live_captures_are_checked_against_the_reference_at_their_side() {
    assert_eq!(LIVE_ALPHA_TOLERANCE, 2);
    let capture = shot(3, 3, centered_dot(3, 255));
    let mut asked = None;
    let result = validate_live_screenshot(&capture, |side| {
        asked = Some(side);
        Ok(RenderedFrame {
            width: 3,
            height: 3,
            rgba: centered_dot(3, 253),
        })
    });
    assert_eq!(result, Ok(()));
    assert_eq!(asked, Some(3));

    let strayed = validate_live_screenshot(&capture, |_| {
        Ok(RenderedFrame {
            width: 3,
            height: 3,
            rgba: centered_dot(3, 252),
        })
    });
    assert_eq!(strayed, Err(ScreenshotError::ReferenceMismatch));
    let unrendered = validate_live_screenshot(&capture, |_| Err(RenderError::InvalidOutputSize));
    assert_eq!(unrendered, Err(ScreenshotError::ReferenceMismatch));
}

#[test]
fn live_captures_fail_before_any_reference_is_rendered() {
    let mut rgba = centered_dot(3, 255);
    rgba[3] = 255;
    let opaque_corner = shot(3, 3, rgba);
    let result = validate_live_screenshot(&opaque_corner, |_| -> Result<RenderedFrame, RenderError> {
        panic!("no reference is rendered for a refused capture")
    });
    assert_eq!(result, Err(ScreenshotError::InvalidTransparency));

    let mut wide = vec![0; 4 * 3 * 4];
    wide[(4 + 2) * 4 + 3] = 255;
    let not_square = shot(4, 3, wide);
    assert!(validate_transparent_overlay(&not_square).is_ok());
    let result = validate_live_screenshot(&not_square, |_| -> Result<RenderedFrame, RenderError> {
        panic!("no reference is rendered for a capture that is not square")
    });
    assert_eq!(result, Err(ScreenshotError::ReferenceMismatch));
}
