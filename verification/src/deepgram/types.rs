//! Inbound transcript records.
//!
//! The service answers with JSON objects of the shape
//! `{ "channel": { "alternatives": [{ "transcript": ... }] }, "is_final": ... }`.
//! The surrounding application decodes the bytes into these records; the
//! rule for which records reach the text sink — final ones with a
//! non-empty first alternative — lives here.

use vstd::prelude::*;

verus! {

/// One recognition alternative.
#[derive(Clone, Debug)]
pub struct Alternative {
    /// The recognized text.
    pub transcript: String,
}

/// The per-channel part of a transcript record.
#[derive(Clone, Debug)]
pub struct Channel {
    /// Alternatives, best first.
    pub alternatives: Vec<Alternative>,
}

/// One inbound transcript record.
#[derive(Clone, Debug)]
pub struct TranscriptResponse {
    /// The channel's alternatives.
    pub channel: Channel,
    /// Whether the service considers this text final.
    pub is_final: bool,
}

impl TranscriptResponse {
    /// The text to surface downstream, if any: the first alternative's
    /// transcript, exactly when the record is final and that text is
    /// non-empty.
    pub fn get_text(&self) -> (r: Option<&str>)
        ensures
            r is Some <==> (self.is_final && self.channel.alternatives@.len() > 0
                && self.channel.alternatives@[0].transcript@.len() > 0),
            r matches Some(t) ==> t@ == self.channel.alternatives@[0].transcript@,
    {
        if !self.is_final {
            return None;
        }
        if self.channel.alternatives.len() == 0 {
            return None;
        }
        let text = self.channel.alternatives[0].transcript.as_str();
        if text.is_empty() {
            None
        } else {
            Some(text)
        }
    }
}

} // verus!
