//! The configuration snapshot the pipeline is built from.
//!
//! Loading and persisting the configuration file are outside work; the
//! pipeline only ever sees an immutable snapshot of plain values, read
//! once per session start. The two levels that the file keeps as
//! fractions of full scale — the speech threshold and the duck volume —
//! are held here in thousandths, so the whole snapshot stays in integers.

use vstd::prelude::*;

verus! {

/// Credentials and model selection for the transcription service.
#[derive(Clone, Debug)]
pub struct DeepgramConfig {
    /// The authorization credential; must be non-empty before the
    /// pipeline may start.
    pub api_key: String,
    /// Language code sent with the handshake, such as `en` or `de`.
    pub language: String,
    /// Model name sent with the handshake.
    pub model: String,
}

/// Audio-side settings.
#[derive(Clone, Debug)]
pub struct AudioConfig {
    /// Silence after the last speech chunk, in milliseconds, that ends an
    /// utterance.
    pub silence_threshold_ms: u64,
    /// Volume for other applications while dictating, in thousandths of
    /// full volume.
    pub duck_volume_milli: u16,
}

/// Voice-activity-detection settings.
#[derive(Clone, Debug)]
pub struct VadConfig {
    /// RMS threshold for speech, in thousandths of full scale.
    pub energy_threshold_milli: u16,
}

/// The whole configuration snapshot.
#[derive(Clone, Debug)]
pub struct Config {
    /// Transcription-service settings.
    pub deepgram: DeepgramConfig,
    /// Audio-side settings.
    pub audio: AudioConfig,
    /// Detection settings.
    pub vad: VadConfig,
}

/// Why a configuration snapshot is unusable.
#[derive(Clone, Copy, Debug, PartialEq, Eq, Structural)]
pub enum ConfigError {
    /// The credential is empty: the service cannot be reached.
    MissingApiKey,
}

impl ConfigError {
    /// An actionable description of the error.
    pub fn message(&self) -> (r: &'static str)
        ensures
            r@ == "API key not set. Please edit config.toml and add your Deepgram API key."@,
    {
        "API key not set. Please edit config.toml and add your Deepgram API key."
    }
}

impl Default for Config {
    /// The defaults written into a freshly created configuration file:
    /// no credential yet, English, the `nova-2` model, a three-second
    /// silence window, duck to 20% volume, speech threshold 0.02.
    fn default() -> (r: Config)
        ensures
            r.deepgram.api_key@ == Seq::<char>::empty(),
            r.deepgram.language@ == "en"@,
            r.deepgram.model@ == "nova-2"@,
            r.audio.silence_threshold_ms == 3000,
            r.audio.duck_volume_milli == 200,
            r.vad.energy_threshold_milli == 20,
    {
        Config {
            deepgram: DeepgramConfig {
                api_key: String::new(),
                language: "en".to_owned(),
                model: "nova-2".to_owned(),
            },
            audio: AudioConfig { silence_threshold_ms: 3000, duck_volume_milli: 200 },
            vad: VadConfig { energy_threshold_milli: 20 },
        }
    }
}

impl Config {
    /// A snapshot is valid exactly when the credential is non-empty; an
    /// empty one is rejected before the pipeline starts, never during
    /// streaming.
    pub fn validate(&self) -> (r: Result<(), ConfigError>)
        ensures
            r is Ok <==> self.deepgram.api_key@.len() > 0,
            r is Err ==> r == Result::<(), ConfigError>::Err(ConfigError::MissingApiKey),
    {
        if self.deepgram.api_key.as_str().is_empty() {
            Err(ConfigError::MissingApiKey)
        } else {
            Ok(())
        }
    }
}

} // verus!
