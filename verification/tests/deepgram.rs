use dictation::deepgram::client::{encode_samples_le, DeepgramClient};
use dictation::deepgram::session::TranscriptionSessionManager;
use dictation::deepgram::types::{Alternative, Channel, TranscriptResponse};

#[test]
fn listen_url_carries_model_and_language() {
    let client = DeepgramClient::new("key".to_string(), "de".to_string(), "nova-2".to_string());
    assert_eq!(
        client.listen_url(),
        "wss://api.deepgram.com/v1/listen?model=nova-2&encoding=linear16&sample_rate=16000&channels=1&language=de"
    );
}

#[test]
fn auth_header_prefixes_the_token() {
    let client = DeepgramClient::new(
        "SECRET-REDACTED".to_string(),
        "en".to_string(),
        "nova-2".to_string(),
    );
    assert_eq!(client.auth_header_value(), "Token SECRET-REDACTED");
}

#[test]
fn samples_encode_little_endian() {
    let bytes = encode_samples_le(&[0, 1, -1, 256, -32768, 32767]);
    assert_eq!(
        bytes,
        vec![
            0x00, 0x00, // 0
            0x01, 0x00, // 1
            0xff, 0xff, // -1
            0x00, 0x01, // 256
            0x00, 0x80, // -32768
            0xff, 0x7f, // 32767
        ]
    );
}

#[test]
fn encoding_matches_the_std_le_bytes() {
    let samples: Vec<i16> = vec![-3, 12345, -20000, 7, 0];
    let bytes = encode_samples_le(&samples);
    let expected: Vec<u8> = samples.iter().flat_map(|s| s.to_le_bytes()).collect();
    assert_eq!(bytes, expected);
}

fn response(is_final: bool, alternatives: Vec<&str>) -> TranscriptResponse {
    TranscriptResponse {
        channel: Channel {
            alternatives: alternatives
                .into_iter()
                .map(|t| Alternative {
                    transcript: t.to_string(),
                })
                .collect(),
        },
        is_final,
    }
}

#[test]
fn only_final_nonempty_transcripts_surface() {
    assert_eq!(response(true, vec!["hello world"]).get_text(), Some("hello world"));
    assert_eq!(response(false, vec!["hello world"]).get_text(), None);
    assert_eq!(response(true, vec![""]).get_text(), None);
    assert_eq!(response(true, vec![]).get_text(), None);
}

#[test]
fn best_alternative_wins() {
    assert_eq!(
        response(true, vec!["first", "second"]).get_text(),
        Some("first")
    );
}

#[test]
fn sessions_alternate_strictly() {
    let mut manager = TranscriptionSessionManager::new();
    assert!(!manager.live);
    assert_eq!(manager.begin_session(), 0);
    assert!(manager.live);
    manager.end_session();
    assert!(!manager.live);
    assert_eq!(manager.begin_session(), 1);
    assert!(manager.live);
    manager.end_session();
    assert_eq!(manager.started, 2);
}
