//! Verified core of the Camlet floating camera overlay.

use vstd::prelude::*;

pub mod appearance;
pub mod automation;
pub mod backend;
pub mod camera;
pub mod cli;
pub mod diagnostics;
pub mod geometry;
pub mod gpu_overlay;
pub mod json;
pub mod language;
pub mod menu;
pub mod menu_windows;
pub mod persistence;
pub mod presentation;
pub mod profile;
pub mod renderer;
pub mod screenshot;
pub mod settings;
pub mod state;
pub mod text;
pub mod window_sync;
pub mod worker;

verus! {

/// Human-readable product name.
pub const APP_NAME: &'static str = "Camlet";

/// Stable application identifier used for settings and packaging.
pub const APP_ID: &'static str = "dev.rayan.camlet";

/// Default logical width and height of the overlay.
pub const DEFAULT_OVERLAY_SIZE: u16 = 224;

/// Identifies the frame producer selected at startup.
#[derive(Debug, Clone, Copy, PartialEq, Eq, Structural)]
pub enum FrameSourceKind {
    /// Use the operating system's camera service.
    Real,
    /// Use Camlet's deterministic, privacy-safe test pattern.
    Synthetic,
}

impl FrameSourceKind {
    /// The stable command-line spelling of a frame source.
    pub open spec fn spelling(self) -> Seq<char> {
        match self {
            FrameSourceKind::Real => seq!['r', 'e', 'a', 'l'],
            FrameSourceKind::Synthetic => seq!['s', 'y', 'n', 't', 'h', 'e', 't', 'i', 'c'],
        }
    }

    /// The frame source spelled `value`, if any.
    pub open spec fn spec_parse(value: Seq<char>) -> Option<FrameSourceKind> {
        if value == FrameSourceKind::Real.spelling() {
            Some(FrameSourceKind::Real)
        } else if value == FrameSourceKind::Synthetic.spelling() {
            Some(FrameSourceKind::Synthetic)
        } else {
            None
        }
    }

    /// Parses the stable command-line spelling of a frame source.
    pub fn parse(value: &str) -> (parsed: Option<FrameSourceKind>)
        ensures
            parsed == FrameSourceKind::spec_parse(value@),
            parsed matches Some(kind) ==> kind.spelling() == value@,
            parsed is None ==> value@ != FrameSourceKind::Real.spelling()
                && value@ != FrameSourceKind::Synthetic.spelling(),
    {
        let real_name = "real";
        let synthetic_name = "synthetic";
        proof {
            reveal_strlit("real");
            reveal_strlit("synthetic");
        }
        if text::str_equals(value, real_name) {
            assert(real_name@ =~= FrameSourceKind::Real.spelling());
            Some(FrameSourceKind::Real)
        } else if text::str_equals(value, synthetic_name) {
            assert(synthetic_name@ =~= FrameSourceKind::Synthetic.spelling());
            Some(FrameSourceKind::Synthetic)
        } else {
            assert(real_name@ =~= FrameSourceKind::Real.spelling());
            assert(synthetic_name@ =~= FrameSourceKind::Synthetic.spelling());
            None
        }
    }

    /// Returns the stable command-line spelling of this source.
    pub fn as_str(self) -> (s: &'static str)
        ensures
            s@ == self.spelling(),
    {
        match self {
            FrameSourceKind::Real => {
                let s = "real";
                proof { reveal_strlit("real"); }
                assert(s@ =~= self.spelling());
                s
            },
            FrameSourceKind::Synthetic => {
                let s = "synthetic";
                proof { reveal_strlit("synthetic"); }
                assert(s@ =~= self.spelling());
                s
            },
        }
    }
}

} // verus!
