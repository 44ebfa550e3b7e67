//! Keeping the product's window bounds and the native window in step: the window reports back
//! the moves and resizes the application asked for, and those reports must not undo input
//! that arrived since.

use vstd::prelude::*;
use crate::appearance::MAXIMUM_OVERLAY_SIZE;
use crate::camera::CaptureRequest;
use crate::geometry::MINIMUM_WINDOW_SIZE;
use crate::settings::AppSettings;

verus! {

/// The window geometry the application asked for and has not yet seen reported back.
#[derive(Debug, Clone, Copy, PartialEq, Eq)]
pub struct WindowSync {
    /// The position of the last programmatic move, until the window reports it.
    pub pending_position: Option<(i32, i32)>,
    /// The side of the last programmatic resize, until the window reports it.
    pub pending_size: Option<u16>,
}

impl WindowSync {
    /// Nothing requested yet.
    pub fn new() -> (sync: WindowSync)
        ensures
            sync.pending_position is None,
            sync.pending_size is None,
    {
        WindowSync { pending_position: None, pending_size: None }
    }

    /// Records a programmatic move to `(x, y)`; it replaces an earlier one.
    pub fn expect_position(&mut self, x: i32, y: i32)
        ensures
            final(self).pending_position == Some((x, y)),
            final(self).pending_size == old(self).pending_size,
    {
        self.pending_position = Some((x, y));
    }

    /// Records a programmatic resize to a square of side `side`.
    pub fn expect_size(&mut self, side: u16)
        ensures
            final(self).pending_size == Some(side),
            final(self).pending_position == old(self).pending_position,
    {
        self.pending_size = Some(side);
    }

    /// Takes in a reported position. While a programmatic move is pending, reports are its
    /// feedback: they are not recorded, and the one that matches it ends the wait. Otherwise
    /// the report is the user's move, to be recorded (`true`).
    pub fn position_reported(&mut self, observed: (i32, i32)) -> (record: bool)
        ensures
            (record, *final(self)) == spec_position_reported(*old(self), observed),
    {
        match self.pending_position {
            Some(expected) => {
                if expected.0 == observed.0 && expected.1 == observed.1 {
                    self.pending_position = None;
                }
                false
            },
            None => true,
        }
    }

    /// Takes in a reported square side, as [`WindowSync::position_reported`] does positions.
    pub fn size_reported(&mut self, observed: u16) -> (record: bool)
        ensures
            record == old(self).pending_size is None,
            final(self).pending_size == (if old(self).pending_size == Some(observed) {
                None
            } else {
                old(self).pending_size
            }),
            final(self).pending_position == old(self).pending_position,
    {
        match self.pending_size {
            Some(expected) => {
                if expected == observed {
                    self.pending_size = None;
                }
                false
            },
            None => true,
        }
    }
}

/// Whether a reported position is recorded, and what stays pending after it.
pub open spec fn spec_position_reported(sync: WindowSync, observed: (i32, i32)) -> (bool, WindowSync) {
    match sync.pending_position {
        Some(expected) => (
            false,
            if expected == observed {
                WindowSync { pending_position: None, ..sync }
            } else {
                sync
            },
        ),
        None => (true, sync),
    }
}

/// Feedback cannot undo newer input: after a programmatic move, reports of any other
/// position are neither recorded nor end the wait, and the report of the move itself ends it
/// without being recorded; only then are reports the user's again.
pub proof fn lemma_feedback_cannot_undo_newer_moves(sync: WindowSync, x: i32, y: i32, stale: (i32, i32))
    requires
        stale != (x, y),
    ensures
        ({
            let pending = WindowSync { pending_position: Some((x, y)), ..sync };
            let after_match = spec_position_reported(pending, (x, y)).1;
            &&& spec_position_reported(pending, stale) == (false, pending)
            &&& spec_position_reported(pending, (x, y)).0 == false
            &&& after_match.pending_position is None
            &&& spec_position_reported(after_match, stale).0
        }),
{
}

/// The side recorded for a reported window size: the report, kept between the smallest
/// window and the monitor's limit.
pub open spec fn spec_recorded_side(observed: u16, monitor_maximum: u16) -> u16 {
    if observed < MINIMUM_WINDOW_SIZE {
        MINIMUM_WINDOW_SIZE
    } else if observed > monitor_maximum {
        monitor_maximum
    } else {
        observed
    }
}

/// Records a window position the user chose.
pub fn record_position(settings: &mut AppSettings, x: i32, y: i32)
    ensures
        *final(settings) == (AppSettings {
            window: crate::geometry::WindowState { x, y, ..old(settings).window },
            ..*old(settings)
        }),
{
    settings.window.x = x;
    settings.window.y = y;
}

/// Records a square window side the user chose: the window becomes that square, and the
/// overlay takes the same size up to its largest.
pub fn record_size(settings: &mut AppSettings, observed: u16, monitor_maximum: u16)
    requires
        monitor_maximum >= MINIMUM_WINDOW_SIZE,
    ensures
        ({
            let side = spec_recorded_side(observed, monitor_maximum);
            &&& final(settings).window == crate::geometry::WindowState {
                width: side,
                height: side,
                ..old(settings).window
            }
            &&& final(settings).appearance.size == (if side < MAXIMUM_OVERLAY_SIZE {
                side
            } else {
                MAXIMUM_OVERLAY_SIZE
            })
            &&& *final(settings) == AppSettings {
                window: final(settings).window,
                appearance: crate::appearance::AppearanceSettings {
                    size: final(settings).appearance.size,
                    ..old(settings).appearance
                },
                ..*old(settings)
            }
        }),
{
    let side = if observed < MINIMUM_WINDOW_SIZE {
        MINIMUM_WINDOW_SIZE
    } else if observed > monitor_maximum {
        monitor_maximum
    } else {
        observed
    };
    settings.window.width = side;
    settings.window.height = side;
    settings.appearance.size = if side < MAXIMUM_OVERLAY_SIZE {
        side
    } else {
        MAXIMUM_OVERLAY_SIZE
    };
}

/// The capture request for the selected camera settings: the resolution's dimensions and one
/// second divided by the frame rate.
pub fn camera_request(settings: &AppSettings) -> (request: CaptureRequest)
    requires
        settings.camera_fps > 0,
    ensures
        (request.width, request.height) == crate::settings::spec_dimensions(
            settings.camera_resolution,
        ),
        request.frame_interval_nanos == 1_000_000_000int / (settings.camera_fps as int),
{
    let (width, height) = settings.camera_resolution.dimensions();
    CaptureRequest {
        width,
        height,
        frame_interval_nanos: 1_000_000_000u64 / (settings.camera_fps as u64),
    }
}

} // verus!
