use dictation::audio::chunker::{downmix_to_mono, ChunkSlicer, CHUNK_SAMPLES};

#[test]
fn stereo_downmix_averages_frames() {
    assert_eq!(downmix_to_mono(&[10, 20, 30, 40], 2), vec![15, 35]);
}

#[test]
fn mono_passes_through() {
    assert_eq!(downmix_to_mono(&[5, -7, 0], 1), vec![5, -7, 0]);
}

#[test]
fn downmix_truncates_toward_zero() {
    // (-3 + -4) / 2 = -3.5, truncated toward zero as the machine does.
    assert_eq!(downmix_to_mono(&[-3, -4], 2), vec![-3]);
    assert_eq!(downmix_to_mono(&[3, 4], 2), vec![3]);
}

#[test]
fn trailing_partial_frame_still_divides_by_channel_count() {
    // The last frame has one sample but two channels: 30 / 2 = 15.
    assert_eq!(downmix_to_mono(&[10, 20, 30], 2), vec![15, 15]);
}

#[test]
fn downmix_handles_extremes() {
    assert_eq!(downmix_to_mono(&[-32768, -32768], 2), vec![-32768]);
    assert_eq!(downmix_to_mono(&[32767, 32767], 2), vec![32767]);
}

#[test]
fn slicer_holds_samples_until_a_chunk_fills() {
    let mut slicer = ChunkSlicer::new();
    let none = slicer.push(&vec![7; CHUNK_SAMPLES - 1]);
    assert!(none.is_empty());
    let one = slicer.push(&[7]);
    assert_eq!(one.len(), 1);
    assert_eq!(one[0], vec![7; CHUNK_SAMPLES]);
    assert!(slicer.pending.is_empty());
}

#[test]
fn slicer_emits_full_chunks_and_keeps_the_rest() {
    let mut slicer = ChunkSlicer::new();
    let samples: Vec<i16> = (0..3500).map(|i| (i % 100) as i16).collect();
    let chunks = slicer.push(&samples);
    assert_eq!(chunks.len(), 2);
    assert_eq!(chunks[0][..], samples[0..1600]);
    assert_eq!(chunks[1][..], samples[1600..3200]);
    assert_eq!(slicer.pending[..], samples[3200..3500]);
}

#[test]
fn slicer_preserves_order_across_pushes() {
    let mut slicer = ChunkSlicer::new();
    let first: Vec<i16> = (0..1000).map(|i| i as i16).collect();
    let second: Vec<i16> = (1000..2000).map(|i| i as i16).collect();
    assert!(slicer.push(&first).is_empty());
    let chunks = slicer.push(&second);
    assert_eq!(chunks.len(), 1);
    let expected: Vec<i16> = (0..1600).map(|i| i as i16).collect();
    assert_eq!(chunks[0], expected);
    let expected_rest: Vec<i16> = (1600..2000).map(|i| i as i16).collect();
    assert_eq!(slicer.pending, expected_rest);
}
