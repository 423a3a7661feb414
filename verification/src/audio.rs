//! Audio-side logic: voice-activity detection, mono downmix and chunk
//! slicing, and the volume-ducking guard.

pub mod chunker;
pub mod ducking;
pub mod vad;
