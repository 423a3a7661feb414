//! Connection parameters and the outbound wire encoding.
//!
//! A streaming session is opened against a URL that carries the model,
//! the fixed encoding (16-bit little-endian PCM at 16 kHz, one channel)
//! and the language, with the credential in an authorization header; the
//! surrounding application performs the actual connect. Outbound audio is
//! one binary frame per chunk, each sample as two little-endian bytes.

use vstd::prelude::*;
use vstd::string::StringExecFns;

verus! {

/// The handshake URL for given model and language codes.
pub open spec fn spec_listen_url(model: Seq<char>, language: Seq<char>) -> Seq<char> {
    "wss://api.deepgram.com/v1/listen?model="@ + model
        + "&encoding=linear16&sample_rate=16000&channels=1&language="@ + language
}

/// A sample reinterpreted as its unsigned 16-bit two's-complement value.
pub open spec fn sample_as_unsigned(s: i16) -> int {
    if s >= 0 {
        s as int
    } else {
        s + 0x10000
    }
}

/// The first wire byte of a sample: the low half, little-endian.
pub open spec fn sample_low_byte(s: i16) -> u8 {
    (sample_as_unsigned(s) % 256) as u8
}

/// The second wire byte of a sample: the high half.
pub open spec fn sample_high_byte(s: i16) -> u8 {
    (sample_as_unsigned(s) / 256) as u8
}

/// Serializes a chunk for one outbound binary frame: each sample as two
/// little-endian bytes, in sample order.
pub fn encode_samples_le(samples: &[i16]) -> (r: Vec<u8>)
    ensures
        r@.len() == 2 * samples@.len(),
        forall|i: int|
            0 <= i < samples@.len() ==> #[trigger] r@[2 * i] == sample_low_byte(samples@[i])
                && r@[2 * i + 1] == sample_high_byte(samples@[i]),
{
    let mut out: Vec<u8> = Vec::new();
    let mut i: usize = 0;
    while i < samples.len()
        invariant
            0 <= i <= samples@.len(),
            out@.len() == 2 * i,
            forall|j: int|
                0 <= j < i ==> #[trigger] out@[2 * j] == sample_low_byte(samples@[j])
                    && out@[2 * j + 1] == sample_high_byte(samples@[j]),
        decreases samples@.len() - i,
    {
        let s = samples[i];
        let u: u32 = if s >= 0 {
            s as u32
        } else {
            ((s as i32) + 0x10000) as u32
        };
        out.push((u % 256) as u8);
        out.push((u / 256) as u8);
        i = i + 1;
    }
    out
}

/// Connection parameters for the streaming transcription service, read
/// once from the configuration snapshot at session start.
pub struct DeepgramClient {
    /// The authorization credential.
    pub api_key: String,
    /// Language code for the handshake.
    pub language: String,
    /// Model name for the handshake.
    pub model: String,
}

impl DeepgramClient {
    /// Captures the snapshot a session will use.
    pub fn new(api_key: String, language: String, model: String) -> (r: DeepgramClient)
        ensures
            r.api_key@ == api_key@,
            r.language@ == language@,
            r.model@ == model@,
    {
        DeepgramClient { api_key, language, model }
    }

    /// The URL the session connects to, carrying model, the fixed
    /// `linear16` / 16 kHz / mono encoding parameters, and language.
    pub fn listen_url(&self) -> (r: String)
        ensures
            r@ == spec_listen_url(self.model@, self.language@),
    {
        let mut url = "wss://api.deepgram.com/v1/listen?model=".to_owned();
        url.append(self.model.as_str());
        url.append("&encoding=linear16&sample_rate=16000&channels=1&language=");
        url.append(self.language.as_str());
        url
    }

    /// The value of the authorization header for the handshake.
    pub fn auth_header_value(&self) -> (r: String)
        ensures
            r@ == "Token "@ + self.api_key@,
    {
        let mut value = "Token ".to_owned();
        value.append(self.api_key.as_str());
        value
    }
}

} // verus!
