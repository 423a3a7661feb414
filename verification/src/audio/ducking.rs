//! The volume-ducking guard.
//!
//! Lowering and restoring other applications' playback volume is platform
//! work; what matters to the pipeline is when it may happen. This guard
//! tracks whether other audio is currently ducked and makes `duck` and
//! `restore` idempotent: each returns whether the platform action still
//! has to be applied, so applying it exactly when the flag says is safe —
//! including a `restore` when nothing was ever ducked.

use vstd::prelude::*;

verus! {

/// Tracks whether other applications' audio is ducked, and to what level.
pub struct AudioDucker {
    /// Target volume for other applications while dictating, in
    /// thousandths of full volume.
    pub duck_volume_milli: u16,
    /// Whether other applications are currently ducked.
    pub is_ducked: bool,
}

impl AudioDucker {
    /// A fresh guard: nothing ducked.
    pub fn new(duck_volume_milli: u16) -> (r: AudioDucker)
        ensures
            r.duck_volume_milli == duck_volume_milli,
            !r.is_ducked,
    {
        AudioDucker { duck_volume_milli, is_ducked: false }
    }

    /// Requests ducking. Returns true exactly when the platform action
    /// must be applied now; a second call without an intervening
    /// [`Self::restore`] is a no-op.
    pub fn duck(&mut self) -> (apply: bool)
        ensures
            final(self).is_ducked,
            final(self).duck_volume_milli == old(self).duck_volume_milli,
            apply == !old(self).is_ducked,
    {
        if self.is_ducked {
            return false;
        }
        self.is_ducked = true;
        true
    }

    /// Requests restoring the original volumes. Returns true exactly when
    /// the platform action must be applied now; calling it when nothing
    /// is ducked — even if nothing ever was — is a no-op.
    pub fn restore(&mut self) -> (apply: bool)
        ensures
            !final(self).is_ducked,
            final(self).duck_volume_milli == old(self).duck_volume_milli,
            apply == old(self).is_ducked,
    {
        if !self.is_ducked {
            return false;
        }
        self.is_ducked = false;
        true
    }
}

} // verus!
