//! Voice-activity detection.
//!
//! A chunk of signed 16-bit mono samples counts as speech when the RMS of
//! the samples, normalized to `[-1, 1]` by the largest representable
//! magnitude, exceeds the detector's energy threshold; an empty chunk is
//! never speech. To keep everything in integers the threshold is held in
//! thousandths of full scale, and the comparison `RMS > t` is made in the
//! equivalent cross-multiplied form
//! `sum(s_i^2) * 1000^2 > t_milli^2 * 32767^2 * n`,
//! exact because both sides of `RMS > t` are non-negative.
//!
//! The detector never reads a clock: each chunk arrives together with its
//! timestamp in milliseconds, so a replay of the same chunks with the same
//! timestamps is the same computation.

use vstd::prelude::*;

verus! {

/// What the detector says about one processed chunk.
#[derive(Clone, Copy, Debug, PartialEq, Eq, Structural)]
pub enum VadEvent {
    /// A silence-to-speech transition: this chunk opens an utterance.
    SpeechStarted,
    /// Inside an utterance (also during the grace window after speech).
    Speaking,
    /// A speech-to-silence transition: the grace window has elapsed.
    SilenceDetected,
    /// Silence outside any utterance.
    Silence,
}

/// Sum of the squares of the samples.
pub open spec fn sum_squares(s: Seq<i16>) -> int
    decreases s.len(),
{
    if s.len() == 0 {
        0
    } else {
        sum_squares(s.drop_last()) + s.last() * s.last()
    }
}

/// The speech test: non-empty, and normalized RMS strictly above the
/// threshold (held in thousandths of full scale).
pub open spec fn chunk_is_speech(s: Seq<i16>, threshold_milli: u16) -> bool {
    &&& s.len() > 0
    &&& sum_squares(s) * 1_000_000 > (threshold_milli as int) * (threshold_milli as int)
        * (32767 * 32767) * s.len()
}

/// Per-utterance speech/silence state.
///
/// `is_speaking` is true inside an utterance; `last_speech_time` remembers
/// the timestamp of the most recent speech chunk, and the utterance ends
/// once a silent chunk arrives more than `silence_threshold_ms` after it.
pub struct VoiceActivityDetector {
    /// RMS threshold for speech, in thousandths of full scale.
    pub energy_threshold_milli: u16,
    /// How long silence must last, in milliseconds, before an utterance ends.
    pub silence_threshold_ms: u64,
    /// Timestamp (ms) of the most recent speech chunk, if any.
    pub last_speech_time: Option<u64>,
    /// Whether an utterance is open.
    pub is_speaking: bool,
}

/// One step of the detector: the state after a chunk and the event emitted
/// for it. This is the whole behaviour of [`VoiceActivityDetector::process`].
pub open spec fn vad_step(
    pre: VoiceActivityDetector,
    chunk: Seq<i16>,
    now_ms: u64,
) -> (VoiceActivityDetector, VadEvent) {
    if chunk_is_speech(chunk, pre.energy_threshold_milli) {
        let post = VoiceActivityDetector {
            energy_threshold_milli: pre.energy_threshold_milli,
            silence_threshold_ms: pre.silence_threshold_ms,
            last_speech_time: Some(now_ms),
            is_speaking: true,
        };
        if !pre.is_speaking {
            (post, VadEvent::SpeechStarted)
        } else {
            (post, VadEvent::Speaking)
        }
    } else {
        let elapsed_past_grace = match pre.last_speech_time {
            Some(t) => now_ms - t > pre.silence_threshold_ms,
            None => false,
        };
        if pre.is_speaking && elapsed_past_grace {
            let post = VoiceActivityDetector {
                energy_threshold_milli: pre.energy_threshold_milli,
                silence_threshold_ms: pre.silence_threshold_ms,
                last_speech_time: pre.last_speech_time,
                is_speaking: false,
            };
            (post, VadEvent::SilenceDetected)
        } else if pre.is_speaking {
            (pre, VadEvent::Speaking)
        } else {
            (pre, VadEvent::Silence)
        }
    }
}

impl VoiceActivityDetector {
    /// A fresh detector: not speaking, no speech seen yet.
    pub fn new(energy_threshold_milli: u16, silence_threshold_ms: u64) -> (r:
        VoiceActivityDetector)
        ensures
            r.energy_threshold_milli == energy_threshold_milli,
            r.silence_threshold_ms == silence_threshold_ms,
            r.last_speech_time is None,
            !r.is_speaking,
    {
        VoiceActivityDetector {
            energy_threshold_milli,
            silence_threshold_ms,
            last_speech_time: None,
            is_speaking: false,
        }
    }

    /// Whether a chunk counts as speech under this detector's threshold.
    fn detect_speech(&self, audio_chunk: &[i16]) -> (r: bool)
        ensures
            r == chunk_is_speech(audio_chunk@, self.energy_threshold_milli),
    {
        if audio_chunk.len() == 0 {
            return false;
        }
        let n = audio_chunk.len();
        let mut sum: u128 = 0;
        let mut i: usize = 0;
        while i < n
            invariant
                n == audio_chunk@.len(),
                0 <= i <= n,
                sum == sum_squares(audio_chunk@.take(i as int)),
                sum <= (i as int) * 0x4000_0000,
            decreases n - i,
        {
            let s = audio_chunk[i];
            proof {
                assert(0 <= (s as i64) * (s as i64) <= 0x4000_0000) by (nonlinear_arith)
                    requires
                        -0x8000 <= s as i64 <= 0x7fff,
                ;
            }
            let wide: i64 = (s as i64) * (s as i64);
            proof {
                assert(audio_chunk@.take(i + 1).drop_last() =~= audio_chunk@.take(i as int));
                assert(audio_chunk@.take(i + 1).last() == audio_chunk@[i as int]);
            }
            sum = sum + (wide as u128);
            i = i + 1;
        }
        proof {
            assert(audio_chunk@.take(n as int) =~= audio_chunk@);
        }
        let t = self.energy_threshold_milli as u128;
        proof {
            assert(t * t <= 0xffff_ffff) by (nonlinear_arith)
                requires
                    t <= 0xffff,
            ;
        }
        let lhs: u128 = sum * 1_000_000;
        let t2: u128 = t * t;
        let t2_scaled: u128 = t2 * 1_073_676_289;
        proof {
            assert(t2_scaled * (n as u128) <= 0x4000_0000_0000_0000 * 0xffff_ffff_ffff_ffff)
                by (nonlinear_arith)
                requires
                    t2_scaled <= 0x4000_0000_0000_0000,
                    n as u128 <= 0xffff_ffff_ffff_ffff,
            ;
        }
        let rhs: u128 = t2_scaled * (n as u128);
        lhs > rhs
    }

    /// Classifies one chunk, arriving at `now_ms` milliseconds, and updates
    /// the utterance state. The whole step equals [`vad_step`]; spelled out:
    ///
    /// - `SpeechStarted` is emitted iff this speech chunk opens an
    ///   utterance (the detector was not speaking);
    /// - `SilenceDetected` is emitted iff an open utterance sees a silent
    ///   chunk more than `silence_threshold_ms` after the last speech;
    /// - a silent chunk outside an utterance yields `Silence`;
    /// - everything else is `Speaking`.
    pub fn process(&mut self, audio_chunk: &[i16], now_ms: u64) -> (event: VadEvent)
        ensures
            (*final(self), event) == vad_step(*old(self), audio_chunk@, now_ms),
            event is SpeechStarted <==> (!old(self).is_speaking && chunk_is_speech(
                audio_chunk@,
                old(self).energy_threshold_milli,
            )),
            event is SilenceDetected <==> (old(self).is_speaking && !chunk_is_speech(
                audio_chunk@,
                old(self).energy_threshold_milli,
            ) && (old(self).last_speech_time matches Some(t) && now_ms - t > old(
                self,
            ).silence_threshold_ms)),
            (!old(self).is_speaking && !chunk_is_speech(
                audio_chunk@,
                old(self).energy_threshold_milli,
            )) ==> event is Silence,
            final(self).is_speaking == (old(self).is_speaking && !(event is SilenceDetected)
                || event is SpeechStarted),
    {
        let is_speech = self.detect_speech(audio_chunk);
        if is_speech {
            self.last_speech_time = Some(now_ms);
            if !self.is_speaking {
                self.is_speaking = true;
                return VadEvent::SpeechStarted;
            }
            return VadEvent::Speaking;
        } else {
            if let Some(last_speech) = self.last_speech_time {
                if self.is_speaking && now_ms >= last_speech && now_ms - last_speech
                    > self.silence_threshold_ms {
                    self.is_speaking = false;
                    return VadEvent::SilenceDetected;
                }
            }
            if self.is_speaking {
                return VadEvent::Speaking;
            }
            return VadEvent::Silence;
        }
    }

    /// Clears the utterance state without emitting an event, so the next
    /// utterance starts clean.
    pub fn reset(&mut self)
        ensures
            final(self).energy_threshold_milli == old(self).energy_threshold_milli,
            final(self).silence_threshold_ms == old(self).silence_threshold_ms,
            final(self).last_speech_time is None,
            !final(self).is_speaking,
    {
        self.is_speaking = false;
        self.last_speech_time = None;
    }
}

/// A whole run of the detector over timestamped chunks: the state after
/// all of them and the events emitted, one per chunk, in arrival order.
pub open spec fn vad_run(
    v: VoiceActivityDetector,
    inputs: Seq<(Seq<i16>, u64)>,
) -> (VoiceActivityDetector, Seq<VadEvent>)
    decreases inputs.len(),
{
    if inputs.len() == 0 {
        (v, Seq::empty())
    } else {
        let prior = vad_run(v, inputs.drop_last());
        let step = vad_step(prior.0, inputs.last().0, inputs.last().1);
        (step.0, prior.1.push(step.1))
    }
}

/// The detector state after the first `i` chunks of a run.
pub open spec fn vad_state_after(
    v: VoiceActivityDetector,
    inputs: Seq<(Seq<i16>, u64)>,
    i: int,
) -> VoiceActivityDetector {
    vad_run(v, inputs.take(i)).0
}

/// A run emits exactly one event per chunk.
pub proof fn lemma_vad_run_len(v: VoiceActivityDetector, inputs: Seq<(Seq<i16>, u64)>)
    ensures
        vad_run(v, inputs).1.len() == inputs.len(),
    decreases inputs.len(),
{
    if inputs.len() > 0 {
        lemma_vad_run_len(v, inputs.drop_last());
    }
}

/// The `i`-th event of a run is the step made from the state the first
/// `i` chunks left behind, and that step's state is the state after
/// `i + 1` chunks.
pub proof fn lemma_vad_run_index(v: VoiceActivityDetector, inputs: Seq<(Seq<i16>, u64)>, i: int)
    requires
        0 <= i < inputs.len(),
    ensures
        vad_run(v, inputs).1[i] == vad_step(
            vad_state_after(v, inputs, i),
            inputs[i].0,
            inputs[i].1,
        ).1,
        vad_state_after(v, inputs, i + 1) == vad_step(
            vad_state_after(v, inputs, i),
            inputs[i].0,
            inputs[i].1,
        ).0,
    decreases inputs.len(),
{
    lemma_vad_run_len(v, inputs.drop_last());
    if i == inputs.len() - 1 {
        assert(inputs.take(i) =~= inputs.drop_last());
        assert(inputs.take(i + 1) =~= inputs);
    } else {
        lemma_vad_run_index(v, inputs.drop_last(), i);
        assert(inputs.drop_last().take(i) =~= inputs.take(i));
        assert(inputs.drop_last().take(i + 1) =~= inputs.take(i + 1));
        assert(inputs.drop_last()[i] == inputs[i]);
    }
}

/// Law: the detector is deterministic. Two runs from equal states over
/// equal timestamped chunk sequences emit equal event sequences; together
/// with [`VoiceActivityDetector::process`]'s contract, which pins each
/// call's result to [`vad_step`], a replay of a capture is bit-for-bit
/// the same sequence of events.
pub proof fn lemma_vad_deterministic(
    a: VoiceActivityDetector,
    b: VoiceActivityDetector,
    inputs: Seq<(Seq<i16>, u64)>,
)
    requires
        a == b,
    ensures
        vad_run(a, inputs).1 == vad_run(b, inputs).1,
{
}

/// Law: events mark transitions, one for one. A run emits
/// `SpeechStarted` at chunk `i` exactly when that chunk turns the
/// detector from not speaking to speaking, and `SilenceDetected` exactly
/// when it turns it from speaking to not speaking — so each is emitted
/// exactly once per transition.
pub proof fn lemma_events_mark_transitions(
    v: VoiceActivityDetector,
    inputs: Seq<(Seq<i16>, u64)>,
    i: int,
)
    requires
        0 <= i < inputs.len(),
    ensures
        vad_run(v, inputs).1[i] is SpeechStarted <==> (!vad_state_after(v, inputs, i).is_speaking
            && vad_state_after(v, inputs, i + 1).is_speaking),
        vad_run(v, inputs).1[i] is SilenceDetected <==> (vad_state_after(v, inputs, i).is_speaking
            && !vad_state_after(v, inputs, i + 1).is_speaking),
{
    lemma_vad_run_index(v, inputs, i);
}

/// While no `SilenceDetected` is emitted, an open utterance stays open.
pub proof fn lemma_speaking_persists(
    v: VoiceActivityDetector,
    inputs: Seq<(Seq<i16>, u64)>,
    i: int,
    j: int,
)
    requires
        0 <= i <= j <= inputs.len(),
        vad_state_after(v, inputs, i).is_speaking,
        forall|k: int| i <= k < j ==> !(#[trigger] vad_run(v, inputs).1[k] is SilenceDetected),
    ensures
        vad_state_after(v, inputs, j).is_speaking,
    decreases j - i,
{
    if i < j {
        lemma_vad_run_index(v, inputs, i);
        lemma_speaking_persists(v, inputs, i + 1, j);
    }
}

/// While no `SpeechStarted` is emitted, a closed utterance stays closed.
pub proof fn lemma_not_speaking_persists(
    v: VoiceActivityDetector,
    inputs: Seq<(Seq<i16>, u64)>,
    i: int,
    j: int,
)
    requires
        0 <= i <= j <= inputs.len(),
        !vad_state_after(v, inputs, i).is_speaking,
        forall|k: int| i <= k < j ==> !(#[trigger] vad_run(v, inputs).1[k] is SpeechStarted),
    ensures
        !vad_state_after(v, inputs, j).is_speaking,
    decreases j - i,
{
    if i < j {
        lemma_vad_run_index(v, inputs, i);
        lemma_not_speaking_persists(v, inputs, i + 1, j);
    }
}

/// Law: `SpeechStarted` is emitted exactly once per silence-to-speech
/// transition. After a `SpeechStarted`, no later chunk yields another
/// `SpeechStarted` until a `SilenceDetected` has closed the utterance.
pub proof fn lemma_speech_started_once(
    v: VoiceActivityDetector,
    inputs: Seq<(Seq<i16>, u64)>,
    i: int,
    j: int,
)
    requires
        0 <= i < j < inputs.len(),
        vad_run(v, inputs).1[i] is SpeechStarted,
        forall|k: int| i < k < j ==> !(#[trigger] vad_run(v, inputs).1[k] is SilenceDetected),
    ensures
        !(vad_run(v, inputs).1[j] is SpeechStarted),
{
    lemma_vad_run_index(v, inputs, i);
    lemma_speaking_persists(v, inputs, i + 1, j);
    lemma_vad_run_index(v, inputs, j);
}

/// Law: `SilenceDetected` is emitted exactly once per speech-to-silence
/// transition. After a `SilenceDetected`, no later chunk yields another
/// `SilenceDetected` until a `SpeechStarted` has opened a new utterance.
pub proof fn lemma_silence_detected_once(
    v: VoiceActivityDetector,
    inputs: Seq<(Seq<i16>, u64)>,
    i: int,
    j: int,
)
    requires
        0 <= i < j < inputs.len(),
        vad_run(v, inputs).1[i] is SilenceDetected,
        forall|k: int| i < k < j ==> !(#[trigger] vad_run(v, inputs).1[k] is SpeechStarted),
    ensures
        !(vad_run(v, inputs).1[j] is SilenceDetected),
{
    lemma_vad_run_index(v, inputs, i);
    lemma_not_speaking_persists(v, inputs, i + 1, j);
    lemma_vad_run_index(v, inputs, j);
}

} // verus!
