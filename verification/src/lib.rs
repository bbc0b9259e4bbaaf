//! Core of a single-track-at-a-time terminal audio player: an ordered queue
//! of pending tracks, a metadata record kept in lockstep with it, and a model
//! of the single active output device, driven by four user-facing operations
//! (play-now, append, skip, clear).

pub mod config;
pub mod metadata;
pub mod metadata_queue;
pub mod sink;
pub mod app;

use vstd::prelude::*;

verus! {

/// Clamps a requested volume percentage into the device range 0..=100.
pub open spec fn clamped_volume(level: int) -> int {
    if level < 0 {
        0
    } else if level > 100 {
        100
    } else {
        level
    }
}

} // verus!
