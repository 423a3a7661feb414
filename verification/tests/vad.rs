use dictation::audio::vad::{VadEvent, VoiceActivityDetector};

// RMS of a constant chunk of value 1638 is 1638/32767, a hair under 0.05.
fn speech_chunk() -> Vec<i16> {
    vec![1638; 1600]
}

fn silent_chunk() -> Vec<i16> {
    vec![0; 1600]
}

#[test]
fn silent_chunks_yield_silence() {
    // Threshold 0.02, i.e. 20 thousandths; 30 silent chunks, 100 ms apart.
    let mut vad = VoiceActivityDetector::new(20, 3000);
    for i in 0..30u64 {
        let event = vad.process(&silent_chunk(), i * 100);
        assert_eq!(event, VadEvent::Silence);
    }
}

#[test]
fn empty_chunk_is_never_speech() {
    let mut vad = VoiceActivityDetector::new(0, 3000);
    assert_eq!(vad.process(&[], 0), VadEvent::Silence);
}

#[test]
fn speech_after_silence_starts_exactly_once() {
    // 5 silent chunks, then 10 with RMS just under 0.05 over threshold 0.02.
    let mut vad = VoiceActivityDetector::new(20, 3000);
    let mut events = Vec::new();
    for i in 0..5u64 {
        events.push(vad.process(&silent_chunk(), i * 100));
    }
    for i in 5..15u64 {
        events.push(vad.process(&speech_chunk(), i * 100));
    }
    assert_eq!(&events[0..5], &[VadEvent::Silence; 5]);
    assert_eq!(events[5], VadEvent::SpeechStarted);
    assert_eq!(&events[6..15], &[VadEvent::Speaking; 9]);
}

#[test]
fn silence_detected_once_after_grace_window() {
    // Speech at t=0, then silence; the 300 ms grace window runs out
    // strictly after t=300, so t=400 is the first chunk that closes the
    // utterance, and only that one.
    let mut vad = VoiceActivityDetector::new(20, 300);
    assert_eq!(vad.process(&speech_chunk(), 0), VadEvent::SpeechStarted);
    assert_eq!(vad.process(&silent_chunk(), 100), VadEvent::Speaking);
    assert_eq!(vad.process(&silent_chunk(), 200), VadEvent::Speaking);
    assert_eq!(vad.process(&silent_chunk(), 300), VadEvent::Speaking);
    assert_eq!(vad.process(&silent_chunk(), 400), VadEvent::SilenceDetected);
    assert_eq!(vad.process(&silent_chunk(), 500), VadEvent::Silence);
}

#[test]
fn replay_is_deterministic() {
    let chunks: Vec<Vec<i16>> = vec![
        silent_chunk(),
        speech_chunk(),
        vec![-1638; 1600],
        silent_chunk(),
        vec![40; 1600],
        speech_chunk(),
    ];
    let mut first = VoiceActivityDetector::new(20, 200);
    let mut second = VoiceActivityDetector::new(20, 200);
    for (i, chunk) in chunks.iter().enumerate() {
        let t = (i as u64) * 100;
        assert_eq!(first.process(chunk, t), second.process(chunk, t));
    }
}

#[test]
fn rms_at_threshold_is_not_speech() {
    // All samples at full scale give RMS 1.0 exactly; with the threshold
    // at 1.0 the strict comparison keeps this silent.
    let mut vad = VoiceActivityDetector::new(1000, 3000);
    assert_eq!(vad.process(&vec![32767; 1600], 0), VadEvent::Silence);
    // One thousandth below full scale and the same chunk is speech.
    let mut vad = VoiceActivityDetector::new(999, 3000);
    assert_eq!(vad.process(&vec![32767; 1600], 0), VadEvent::SpeechStarted);
}

#[test]
fn reset_clears_the_utterance() {
    let mut vad = VoiceActivityDetector::new(20, 30000);
    assert_eq!(vad.process(&speech_chunk(), 0), VadEvent::SpeechStarted);
    vad.reset();
    // Without the reset this would be Speaking: the grace window is long.
    assert_eq!(vad.process(&silent_chunk(), 100), VadEvent::Silence);
    assert_eq!(vad.process(&speech_chunk(), 200), VadEvent::SpeechStarted);
}

#[test]
fn negative_samples_carry_energy() {
    let mut vad = VoiceActivityDetector::new(20, 3000);
    assert_eq!(vad.process(&vec![-1638; 1600], 0), VadEvent::SpeechStarted);
}
