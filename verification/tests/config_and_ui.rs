use dictation::audio::ducking::AudioDucker;
use dictation::config::{Config, ConfigError};
use dictation::keyboard::prepare_typed_text;
use dictation::state::AppState;
use dictation::tray::{generate_icon, pause_label, toggle_language};

#[test]
fn default_config_values() {
    let config = Config::default();
    assert_eq!(config.deepgram.api_key, "");
    assert_eq!(config.deepgram.language, "en");
    assert_eq!(config.deepgram.model, "nova-2");
    assert_eq!(config.audio.silence_threshold_ms, 3000);
    assert_eq!(config.audio.duck_volume_milli, 200);
    assert_eq!(config.vad.energy_threshold_milli, 20);
}

#[test]
fn missing_api_key_is_rejected_before_start() {
    let config = Config::default();
    let err = config.validate().unwrap_err();
    assert_eq!(err, ConfigError::MissingApiKey);
    assert_eq!(
        err.message(),
        "API key not set. Please edit config.toml and add your Deepgram API key."
    );
}

#[test]
fn config_with_api_key_validates() {
    let mut config = Config::default();
    config.deepgram.api_key = "SECRET-REDACTED".to_string();
    assert!(config.validate().is_ok());
}

#[test]
fn ducking_is_idempotent() {
    let mut ducker = AudioDucker::new(200);
    // Restoring before anything was ducked is safe and a no-op.
    assert!(!ducker.restore());
    assert!(ducker.duck());
    assert!(!ducker.duck());
    assert!(ducker.is_ducked);
    assert!(ducker.restore());
    assert!(!ducker.restore());
    assert!(!ducker.is_ducked);
}

#[test]
fn typed_text_gets_a_leading_space() {
    assert_eq!(prepare_typed_text("hello"), " hello");
    assert_eq!(prepare_typed_text(""), "");
}

#[test]
fn pause_menu_label_follows_state() {
    assert_eq!(pause_label(AppState::Paused), "Resume");
    assert_eq!(pause_label(AppState::Active), "Pause");
    assert_eq!(pause_label(AppState::Speaking), "Pause");
}

#[test]
fn language_toggles_between_english_and_german() {
    let mut config = Config::default();
    assert_eq!(toggle_language(&mut config), "Language: German");
    assert_eq!(config.deepgram.language, "de");
    assert_eq!(toggle_language(&mut config), "Language: English");
    assert_eq!(config.deepgram.language, "en");
    // Nothing else in the snapshot moves.
    assert_eq!(config.deepgram.model, "nova-2");
    assert_eq!(config.audio.silence_threshold_ms, 3000);
}

#[test]
fn icon_is_a_filled_disc_of_the_state_color() {
    let icon = generate_icon(AppState::Speaking);
    assert_eq!(icon.len(), 32 * 32 * 4);
    // The centre pixel carries the Speaking blue at full alpha.
    let centre = (16 * 32 + 16) * 4;
    assert_eq!(&icon[centre..centre + 4], &[0, 120, 212, 255]);
    // A corner pixel is transparent.
    assert_eq!(&icon[0..4], &[0, 0, 0, 0]);
    // Just inside the rim along the axis is painted, just outside is not.
    let inside = (16 * 32 + 16 + 11) * 4;
    assert_eq!(&icon[inside..inside + 4], &[0, 120, 212, 255]);
    let outside = (16 * 32 + 16 + 12) * 4;
    assert_eq!(&icon[outside..outside + 4], &[0, 0, 0, 0]);
}

#[test]
fn icon_colors_match_state_classification() {
    let paused = generate_icon(AppState::Paused);
    let centre = (16 * 32 + 16) * 4;
    assert_eq!(&paused[centre..centre + 4], &[209, 52, 56, 255]);
    let active = generate_icon(AppState::Active);
    assert_eq!(&active[centre..centre + 4], &[138, 138, 138, 255]);
}
