//! Core logic of a push-to-type dictation pipeline: voice-activity
//! detection over fixed-size audio chunks, the application state machine
//! shared with the UI, the per-utterance streaming-session lifecycle, and
//! the orchestrator that ties them together.
//!
//! Everything here is pure computation on plain values; audio capture,
//! the network connection, and platform integration live in the
//! surrounding application.

pub mod audio;
pub mod config;
pub mod deepgram;
pub mod keyboard;
pub mod orchestrator;
pub mod state;
pub mod tray;
