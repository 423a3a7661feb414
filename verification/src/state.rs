//! The shared application state and its manager.
//!
//! The state machine has five states; the orchestrator drives the
//! `Active`/`Speaking`/`AutoPaused` transitions while a user-facing toggle
//! collapses everything to `Paused` and back to `Active`. A write that does
//! not change the stored value is not an observable transition: the ghost
//! transition log records exactly the value-changing writes.

use vstd::prelude::*;

verus! {

/// The one application state shared between the pipeline and the UI.
#[derive(Clone, Copy, Debug, PartialEq, Eq, Structural)]
pub enum AppState {
    /// Listening, voice activity detection running, no speech yet.
    Active,
    /// Paused by the user; nothing runs.
    Paused,
    /// Auto-paused after detected silence, ready to resume on speech.
    AutoPaused,
    /// An utterance is being transcribed.
    Speaking,
    /// Another application holds the microphone.
    MicConflict,
}

/// The icon colour shown for a state.
pub open spec fn spec_icon_color(s: AppState) -> Seq<char> {
    match s {
        AppState::Active | AppState::AutoPaused => "grey"@,
        AppState::Speaking => "blue"@,
        AppState::Paused | AppState::MicConflict => "red"@,
    }
}

/// Where the user toggle sends each state: `Paused` resumes to `Active`,
/// everything else pauses.
pub open spec fn spec_toggle(s: AppState) -> AppState {
    if s is Paused {
        AppState::Active
    } else {
        AppState::Paused
    }
}

impl AppState {
    /// Colour of the tray icon for this state.
    pub fn icon_color(&self) -> (r: &'static str)
        ensures
            r@ == spec_icon_color(*self),
    {
        match self {
            AppState::Active | AppState::AutoPaused => "grey",
            AppState::Speaking => "blue",
            AppState::Paused | AppState::MicConflict => "red",
        }
    }

    /// Whether an utterance is currently being transcribed.
    pub fn is_transcribing(&self) -> (r: bool)
        ensures
            r == (*self is Speaking),
    {
        matches!(self, AppState::Speaking)
    }

    /// Whether the microphone is being listened to.
    pub fn is_listening(&self) -> (r: bool)
        ensures
            r == (*self is Active || *self is Speaking),
    {
        matches!(self, AppState::Active | AppState::Speaking)
    }
}

/// Holds the one shared [`AppState`] value and logs every observable
/// transition. The log is ghost: it stands for the signals (log lines,
/// re-render notifications) the real manager would emit on a change.
pub struct StateManager {
    /// The current state.
    pub state: AppState,
    /// Every value-changing write, as (from, to) pairs, oldest first.
    pub log: Ghost<Seq<(AppState, AppState)>>,
}

impl StateManager {
    /// A fresh manager starts `Active` with no transitions observed.
    pub fn new() -> (r: StateManager)
        ensures
            r.state == AppState::Active,
            r.log@ == Seq::<(AppState, AppState)>::empty(),
    {
        StateManager { state: AppState::Active, log: Ghost(Seq::empty()) }
    }

    /// A snapshot of the current state.
    pub fn get(&self) -> (r: AppState)
        ensures
            r == self.state,
    {
        self.state
    }

    /// Writes `new_state`. The write is idempotent: when the stored value
    /// already equals `new_state` nothing observable happens — the
    /// transition log is untouched — and the returned flag is false.
    pub fn set(&mut self, new_state: AppState) -> (changed: bool)
        ensures
            final(self).state == new_state,
            changed == (old(self).state != new_state),
            changed ==> final(self).log@ == old(self).log@.push((old(self).state, new_state)),
            !changed ==> *final(self) == *old(self),
    {
        if self.state != new_state {
            proof {
                self.log@ = self.log@.push((self.state, new_state));
            }
            self.state = new_state;
            true
        } else {
            false
        }
    }

    /// The user toggle: pause from any state, or resume from `Paused` to
    /// `Active`. Unlike [`Self::set`] this always counts as an observed
    /// transition, as the user asked for it.
    pub fn toggle_pause(&mut self) -> (r: AppState)
        ensures
            r == spec_toggle(old(self).state),
            final(self).state == r,
            final(self).log@ == old(self).log@.push((old(self).state, r)),
    {
        let new_state = match self.state {
            AppState::Paused => AppState::Active,
            _ => AppState::Paused,
        };
        proof {
            self.log@ = self.log@.push((self.state, new_state));
        }
        self.state = new_state;
        new_state
    }
}

/// Law: toggling pause twice starting from `Active` returns to a state
/// whose classification — icon colour, transcribing, listening — is
/// exactly that of `Active`.
pub proof fn lemma_toggle_pause_round_trip()
    ensures
        spec_toggle(spec_toggle(AppState::Active)) == AppState::Active,
        spec_icon_color(spec_toggle(spec_toggle(AppState::Active)))
            == spec_icon_color(AppState::Active),
{
}

} // verus!
