//! The decisions of the image stabilization loop that do not depend on the
//! geometry: pausing the rotation, and when to fit the image again.

use vstd::prelude::*;

verus! {

/// The key that pauses and resumes the rotation.
pub const PAUSE_KEY: char = ' ';

/// Whether the displayed angle is frozen.
#[derive(Clone, Copy, Debug, PartialEq, Eq, Structural)]
pub struct RotationPause {
    pub paused: bool,
}

impl RotationPause {
    /// The rotation starts running.
    pub fn new() -> (r: Self)
        ensures
            !r.paused,
    {
        RotationPause { paused: false }
    }

    /// Handles one pressed key: the pause key toggles the pause, any other
    /// key is ignored.
    pub fn on_key(&mut self, key: char)
        ensures
            key == PAUSE_KEY ==> final(self).paused == !old(self).paused,
            key != PAUSE_KEY ==> final(self).paused == old(self).paused,
    {
        if key == PAUSE_KEY {
            self.paused = !self.paused;
        }
    }

    /// Whether the image must be fitted again in this frame: when the
    /// window's size changed, or when the angle changed and the rotation is
    /// not paused.
    pub fn needs_refit(&self, window_changed: bool, angle_changed: bool) -> (r: bool)
        ensures
            r == (window_changed || (!self.paused && angle_changed)),
    {
        window_changed || (!self.paused && angle_changed)
    }

    /// Whether a fit in this frame takes the new angle: only while the
    /// rotation runs.
    pub fn takes_new_angle(&self) -> (r: bool)
        ensures
            r == !self.paused,
    {
        !self.paused
    }
}

} // verus!
