//! Gameplay timeline core of a rhythm-game client.
//!
//! Given a monotonically advancing playback clock and a parsed beatmap
//! (ordered hit objects with timing and difficulty-derived constants), the
//! library computes, for every frame, which objects are currently relevant
//! and their fully resolved visual state: fade and scale progress for
//! approach indicators, hit-circle opacity, slider body fade, per-repeat
//! reverse-arrow visibility, tick visibility, the follow indicator's
//! position along the slider's path, and the fade lifecycle of scoring
//! judgement popups.
//!
//! All quantities are integers: times are milliseconds, alpha / progress /
//! scale values are milli-units (1000 means 1.0), difficulty values are
//! tenths (approach rate 9.3 is 93), and positions are map-space units.

pub mod clock;
pub mod config;
pub mod curve;
pub mod engine;
pub mod hit_objects;
pub mod input;
pub mod judgement;
pub mod math;
pub mod timeline;

use vstd::prelude::*;

verus! {

/// An event handed back to the state layer from the settings surface.
pub enum OsuStateEvent {
    /// Switch to the skin found at the given directory path.
    ChangeSkin(String),
}

} // verus!
