//! Streaming-transcription logic: the session lifecycle, the connection
//! parameters, the outbound wire encoding, and the inbound transcript
//! records.

pub mod client;
pub mod session;
pub mod types;
