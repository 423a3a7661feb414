//! The control loop's decision core.
//!
//! The surrounding application pulls audio chunks off the capture queue
//! in arrival order and hands each one here, together with its timestamp;
//! the returned action tells it what outside work to perform — open or
//! tear down a streaming session, forward the chunk to the live one, or
//! nothing. All decisions are made on one logical thread, one chunk at a
//! time, which is what keeps the detector deterministic and the session
//! lifecycle strictly alternating.

use vstd::prelude::*;

use crate::audio::ducking::AudioDucker;
use crate::audio::vad::{chunk_is_speech, vad_step, VadEvent, VoiceActivityDetector};
use crate::deepgram::session::{SessionEvent, TranscriptionSessionManager};
use crate::state::{AppState, StateManager};

verus! {

/// What the caller must do with the chunk it just handed in.
#[derive(Clone, Copy, Debug, PartialEq, Eq, Structural)]
pub enum PipelineAction {
    /// The pipeline is paused: the chunk was drained unprocessed, so the
    /// capture side never blocks on a full queue.
    Dropped,
    /// An utterance began: duck other audio, open a streaming session,
    /// and enqueue this chunk as its first audio.
    StartSession,
    /// Forward this chunk to the live session's outbound queue.
    ForwardChunk,
    /// The utterance ended: restore other audio and tear the session down.
    EndSession,
    /// Nothing to do beyond what the state already reflects.
    Idle,
}

/// Wires the detector, the shared state, the session lifecycle and the
/// ducking guard together.
pub struct Orchestrator {
    /// The voice-activity detector, reset after each utterance.
    pub vad: VoiceActivityDetector,
    /// The state shared with the UI.
    pub state: StateManager,
    /// The session lifecycle manager.
    pub sessions: TranscriptionSessionManager,
    /// The volume-ducking guard.
    pub ducker: AudioDucker,
}

impl Orchestrator {
    /// A session is live exactly while the detector is inside an
    /// utterance, and ducking is applied exactly then too.
    pub open spec fn wf(self) -> bool {
        &&& self.sessions.wf()
        &&& self.sessions.live == self.vad.is_speaking
        &&& self.ducker.is_ducked == self.vad.is_speaking
    }

    /// A fresh pipeline: state `Active`, detector quiet, no session, no
    /// ducking.
    pub fn new(energy_threshold_milli: u16, silence_threshold_ms: u64, duck_volume_milli: u16) -> (r:
        Orchestrator)
        ensures
            r.wf(),
            r.vad.energy_threshold_milli == energy_threshold_milli,
            r.vad.silence_threshold_ms == silence_threshold_ms,
            !r.vad.is_speaking,
            r.vad.last_speech_time is None,
            r.state.state == AppState::Active,
            r.state.log@ == Seq::<(AppState, AppState)>::empty(),
            r.sessions.started == 0,
            r.sessions.events@ == Seq::<SessionEvent>::empty(),
            r.ducker.duck_volume_milli == duck_volume_milli,
    {
        Orchestrator {
            vad: VoiceActivityDetector::new(energy_threshold_milli, silence_threshold_ms),
            state: StateManager::new(),
            sessions: TranscriptionSessionManager::new(),
            ducker: AudioDucker::new(duck_volume_milli),
        }
    }

    /// Processes one chunk, arriving at `now_ms`, and says what to do
    /// with it.
    ///
    /// While the state is `Paused` or `MicConflict` the chunk is consumed
    /// without touching the detector. Otherwise the detector classifies
    /// it: `SpeechStarted` moves the state to `Speaking`, ducks, and opens
    /// the next session; `Speaking` forwards the chunk if an utterance is
    /// being transcribed; `SilenceDetected` moves the state to
    /// `AutoPaused`, restores, tears the session down and resets the
    /// detector; `Silence` needs nothing.
    pub fn handle_chunk(&mut self, chunk: &[i16], now_ms: u64) -> (action: PipelineAction)
        requires
            old(self).wf(),
            old(self).sessions.started < u64::MAX,
        ensures
            final(self).wf(),
            final(self).vad.energy_threshold_milli == old(self).vad.energy_threshold_milli,
            final(self).vad.silence_threshold_ms == old(self).vad.silence_threshold_ms,
            final(self).ducker.duck_volume_milli == old(self).ducker.duck_volume_milli,
            (old(self).state.state is Paused || old(self).state.state is MicConflict) ==> (
            action is Dropped && *final(self) == *old(self)),
            !(old(self).state.state is Paused || old(self).state.state is MicConflict) ==> ({
                let stepped = vad_step(old(self).vad, chunk@, now_ms);
                let event = stepped.1;
                &&& (event is SpeechStarted ==> {
                    &&& action is StartSession
                    &&& final(self).vad == stepped.0
                    &&& final(self).state.state is Speaking
                    &&& final(self).sessions.live
                    &&& final(self).sessions.started == old(self).sessions.started + 1
                    &&& final(self).sessions.events@ == old(self).sessions.events@.push(
                        SessionEvent::Started(old(self).sessions.started),
                    )
                    &&& final(self).ducker.is_ducked
                })
                &&& (event is Speaking ==> {
                    &&& (action is ForwardChunk <==> old(self).state.state is Speaking)
                    &&& (action is ForwardChunk || action is Idle)
                    &&& final(self).vad == stepped.0
                    &&& final(self).state == old(self).state
                    &&& final(self).sessions == old(self).sessions
                    &&& final(self).ducker == old(self).ducker
                })
                &&& (event is SilenceDetected ==> {
                    &&& action is EndSession
                    &&& !final(self).vad.is_speaking
                    &&& final(self).vad.last_speech_time is None
                    &&& final(self).state.state is AutoPaused
                    &&& !final(self).sessions.live
                    &&& final(self).sessions.events@ == old(self).sessions.events@.push(
                        SessionEvent::Ended((old(self).sessions.started - 1) as u64),
                    )
                    &&& !final(self).ducker.is_ducked
                })
                &&& (event is Silence ==> {
                    &&& action is Idle
                    &&& *final(self) == *old(self)
                })
                &&& (event is SpeechStarted <==> !old(self).vad.is_speaking && chunk_is_speech(
                    chunk@,
                    old(self).vad.energy_threshold_milli,
                ))
            }),
    {
        let current = self.state.get();
        if matches!(current, AppState::Paused | AppState::MicConflict) {
            return PipelineAction::Dropped;
        }
        let event = self.vad.process(chunk, now_ms);
        match event {
            VadEvent::SpeechStarted => {
                self.state.set(AppState::Speaking);
                self.ducker.duck();
                self.sessions.begin_session();
                PipelineAction::StartSession
            },
            VadEvent::Speaking => {
                if matches!(current, AppState::Speaking) {
                    PipelineAction::ForwardChunk
                } else {
                    PipelineAction::Idle
                }
            },
            VadEvent::SilenceDetected => {
                self.state.set(AppState::AutoPaused);
                self.ducker.restore();
                self.sessions.end_session();
                self.vad.reset();
                PipelineAction::EndSession
            },
            VadEvent::Silence => PipelineAction::Idle,
        }
    }
}

} // verus!
