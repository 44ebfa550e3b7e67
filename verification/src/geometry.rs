//! Pure overlay window geometry.

use vstd::prelude::*;

use crate::DEFAULT_OVERLAY_SIZE;

verus! {

/// Minimum host window dimension in logical pixels.
pub const MINIMUM_WINDOW_SIZE: u16 = 176;

/// Keyboard/menu resize increment in logical pixels.
pub const RESIZE_STEP: i16 = 24;

/// Persisted logical window bounds.
#[derive(Debug, Clone, Copy, PartialEq, Eq, Structural)]
pub struct WindowState {
    /// Left screen coordinate.
    pub x: i32,
    /// Top screen coordinate.
    pub y: i32,
    /// Logical width.
    pub width: u16,
    /// Logical height.
    pub height: u16,
}

/// The window bounds of a fresh profile.
pub open spec fn default_window() -> WindowState {
    WindowState { x: 48, y: 48, width: DEFAULT_OVERLAY_SIZE, height: DEFAULT_OVERLAY_SIZE }
}

impl Default for WindowState {
    fn default() -> (state: WindowState)
        ensures
            state == default_window(),
    {
        WindowState { x: 48, y: 48, width: DEFAULT_OVERLAY_SIZE, height: DEFAULT_OVERLAY_SIZE }
    }
}

/// A monitor's usable logical bounds.
#[derive(Debug, Clone, Copy, PartialEq, Eq, Structural)]
pub struct WorkArea {
    /// Left screen coordinate.
    pub x: i32,
    /// Top screen coordinate.
    pub y: i32,
    /// Usable width.
    pub width: u32,
    /// Usable height.
    pub height: u32,
}

/// `value` limited to `minimum..=maximum` (for `minimum <= maximum`).
pub open spec fn clamp_int(value: int, minimum: int, maximum: int) -> int {
    if value < minimum {
        minimum
    } else if value > maximum {
        maximum
    } else {
        value
    }
}

/// A work-area extent seen as a window extent: values above `u16::MAX` saturate.
pub open spec fn extent_as_u16(extent: u32) -> int {
    if extent > u16::MAX {
        u16::MAX as int
    } else {
        extent as int
    }
}

/// The window size along one axis after clamping into an extent of at least one pixel:
/// at least `min(176, extent)` and at most the extent (saturated to `u16`).
pub open spec fn clamped_extent(size: u16, extent: u32) -> int {
    let available = extent_as_u16(extent);
    let minimum = if (MINIMUM_WINDOW_SIZE as int) < available {
        MINIMUM_WINDOW_SIZE as int
    } else {
        available
    };
    clamp_int(size as int, minimum, available)
}

/// The stored window moved and shrunk into a work area.
pub open spec fn spec_clamp_window(state: WindowState, area: WorkArea) -> WindowState {
    let width = clamped_extent(state.width, area.width);
    let height = clamped_extent(state.height, area.height);
    WindowState {
        x: clamp_int(state.x as int, area.x as int, area.x + area.width - width) as i32,
        y: clamp_int(state.y as int, area.y as int, area.y + area.height - height) as i32,
        width: width as u16,
        height: height as u16,
    }
}

/// Clamps a stored window into a monitor work area.
///
/// An empty work area is not a monitor: both extents must be at least one pixel.
pub fn clamp_window_to_work_area(state: WindowState, area: WorkArea) -> (clamped: WindowState)
    requires
        area.width >= 1,
        area.height >= 1,
    ensures
        clamped == spec_clamp_window(state, area),
{
    let area_width: u16 = if area.width > 0xFFFF {
        0xFFFF
    } else {
        area.width as u16
    };
    let area_height: u16 = if area.height > 0xFFFF {
        0xFFFF
    } else {
        area.height as u16
    };
    let minimum_width = if MINIMUM_WINDOW_SIZE < area_width {
        MINIMUM_WINDOW_SIZE
    } else {
        area_width
    };
    let minimum_height = if MINIMUM_WINDOW_SIZE < area_height {
        MINIMUM_WINDOW_SIZE
    } else {
        area_height
    };
    let width = if state.width < minimum_width {
        minimum_width
    } else if state.width > area_width {
        area_width
    } else {
        state.width
    };
    let height = if state.height < minimum_height {
        minimum_height
    } else if state.height > area_height {
        area_height
    } else {
        state.height
    };
    let max_x: i64 = area.x as i64 + area.width as i64 - width as i64;
    let max_y: i64 = area.y as i64 + area.height as i64 - height as i64;
    let x = clamp_i64_to_i32(clamp_i64(state.x as i64, area.x as i64, max_x));
    let y = clamp_i64_to_i32(clamp_i64(state.y as i64, area.y as i64, max_y));
    WindowState { x, y, width, height }
}

/// `value` limited to `minimum..=maximum`.
fn clamp_i64(value: i64, minimum: i64, maximum: i64) -> (clamped: i64)
    requires
        minimum <= maximum,
    ensures
        clamped == clamp_int(value as int, minimum as int, maximum as int),
{
    if value < minimum {
        minimum
    } else if value > maximum {
        maximum
    } else {
        value
    }
}

/// Every clamped window lies inside its work area.
pub proof fn lemma_clamped_window_is_contained(state: WindowState, area: WorkArea)
    requires
        area.width >= 1,
        area.height >= 1,
    ensures
        ({
            let result = spec_clamp_window(state, area);
            &&& result.x >= area.x
            &&& result.y >= area.y
            &&& result.x + result.width <= area.x + area.width
            &&& result.y + result.height <= area.y + area.height
        }),
{
}

/// A window that already lies inside the work area, at a size the area allows (no smaller
/// than the minimum window size or the area, no larger than the area), is kept as it is.
pub proof fn lemma_window_inside_is_kept(state: WindowState, area: WorkArea)
    requires
        area.width >= 1,
        area.height >= 1,
        area.x <= state.x,
        state.x + state.width <= area.x + area.width,
        area.y <= state.y,
        state.y + state.height <= area.y + area.height,
        state.width >= MINIMUM_WINDOW_SIZE || state.width >= area.width,
        state.height >= MINIMUM_WINDOW_SIZE || state.height >= area.height,
    ensures
        spec_clamp_window(state, area) == state,
{
}

/// Clamping moves a window as little as it can: along each axis, a coordinate from which the
/// clamped window fits stays; one before the area's start goes to the start; one past the
/// last place where the window fits goes to that place, so the window ends at the area's end.
pub proof fn lemma_clamp_moves_least(state: WindowState, area: WorkArea)
    requires
        area.width >= 1,
        area.height >= 1,
    ensures
        ({
            let r = spec_clamp_window(state, area);
            &&& area.x <= state.x && state.x + r.width <= area.x + area.width ==> r.x == state.x
            &&& state.x < area.x ==> r.x == area.x
            &&& state.x + r.width > area.x + area.width ==> r.x + r.width == area.x + area.width
            &&& area.y <= state.y && state.y + r.height <= area.y + area.height ==> r.y == state.y
            &&& state.y < area.y ==> r.y == area.y
            &&& state.y + r.height > area.y + area.height ==> r.y + r.height == area.y
                + area.height
            &&& r.width <= area.width && r.height <= area.height
            &&& (MINIMUM_WINDOW_SIZE <= state.width <= area.width ==> r.width == state.width)
            &&& (MINIMUM_WINDOW_SIZE <= state.height <= area.height ==> r.height == state.height)
        }),
{
}

/// Moves a window by a signed logical delta with saturating coordinates.
pub fn move_window(state: WindowState, delta_x: i32, delta_y: i32) -> (moved: WindowState)
    ensures
        moved.x == clamp_int(state.x + delta_x, i32::MIN as int, i32::MAX as int),
        moved.y == clamp_int(state.y + delta_y, i32::MIN as int, i32::MAX as int),
        moved.width == state.width,
        moved.height == state.height,
{
    WindowState {
        x: saturating_add_i32(state.x, delta_x),
        y: saturating_add_i32(state.y, delta_y),
        ..state
    }
}

/// Adds two `i32` values, saturating at the bounds.
fn saturating_add_i32(a: i32, b: i32) -> (sum: i32)
    ensures
        sum == clamp_int(a + b, i32::MIN as int, i32::MAX as int),
{
    clamp_i64_to_i32(a as i64 + b as i64)
}

/// The side of a square window resized by `delta`, kept within `176..=max(maximum, 176)`.
pub open spec fn spec_resized_side(width: u16, delta: i16, maximum: u16) -> int {
    let upper = if maximum < MINIMUM_WINDOW_SIZE {
        MINIMUM_WINDOW_SIZE as int
    } else {
        maximum as int
    };
    clamp_int(width + delta, MINIMUM_WINDOW_SIZE as int, upper)
}

/// Resizes a square window while keeping its top-left corner stable.
///
/// Native window APIs generally expose move and resize as separate asynchronous operations.
/// Keeping the anchor stable lets the adapter resize in one operation without visible flicker.
pub fn resize_square_window(state: WindowState, delta: i16, maximum: u16) -> (resized: WindowState)
    ensures
        resized.x == state.x,
        resized.y == state.y,
        resized.width == spec_resized_side(state.width, delta, maximum),
        resized.height == resized.width,
{
    let maximum = if maximum < MINIMUM_WINDOW_SIZE {
        MINIMUM_WINDOW_SIZE
    } else {
        maximum
    };
    let wanted: i32 = state.width as i32 + delta as i32;
    let next: i32 = if wanted < MINIMUM_WINDOW_SIZE as i32 {
        MINIMUM_WINDOW_SIZE as i32
    } else if wanted > maximum as i32 {
        maximum as i32
    } else {
        wanted
    };
    let size = next as u16;
    WindowState { x: state.x, y: state.y, width: size, height: size }
}

/// Converts to `i32`, saturating at the bounds.
pub fn clamp_i64_to_i32(value: i64) -> (converted: i32)
    ensures
        converted == clamp_int(value as int, i32::MIN as int, i32::MAX as int),
{
    if value < i32::MIN as i64 {
        i32::MIN
    } else if value > i32::MAX as i64 {
        i32::MAX
    } else {
        value as i32
    }
}

} // verus!
