use dictation::state::{AppState, StateManager};

#[test]
fn icon_colors_by_state() {
    assert_eq!(AppState::Active.icon_color(), "grey");
    assert_eq!(AppState::AutoPaused.icon_color(), "grey");
    assert_eq!(AppState::Speaking.icon_color(), "blue");
    assert_eq!(AppState::Paused.icon_color(), "red");
    assert_eq!(AppState::MicConflict.icon_color(), "red");
}

#[test]
fn classification_predicates() {
    assert!(AppState::Speaking.is_transcribing());
    assert!(!AppState::Active.is_transcribing());
    assert!(AppState::Active.is_listening());
    assert!(AppState::Speaking.is_listening());
    assert!(!AppState::Paused.is_listening());
    assert!(!AppState::AutoPaused.is_listening());
    assert!(!AppState::MicConflict.is_listening());
}

#[test]
fn set_to_same_value_is_not_a_transition() {
    let mut manager = StateManager::new();
    assert_eq!(manager.get(), AppState::Active);
    let changed = manager.set(AppState::Active);
    assert!(!changed);
    assert_eq!(manager.get(), AppState::Active);
}

#[test]
fn set_to_new_value_is_a_transition() {
    let mut manager = StateManager::new();
    assert!(manager.set(AppState::Speaking));
    assert_eq!(manager.get(), AppState::Speaking);
    assert!(!manager.set(AppState::Speaking));
}

#[test]
fn toggle_pauses_from_every_non_paused_state() {
    for start in [
        AppState::Active,
        AppState::AutoPaused,
        AppState::Speaking,
        AppState::MicConflict,
    ] {
        let mut manager = StateManager::new();
        manager.set(start);
        assert_eq!(manager.toggle_pause(), AppState::Paused);
    }
}

#[test]
fn toggle_resumes_from_paused_to_active() {
    let mut manager = StateManager::new();
    manager.set(AppState::Paused);
    assert_eq!(manager.toggle_pause(), AppState::Active);
}

#[test]
fn toggle_twice_restores_active_classification() {
    let mut manager = StateManager::new();
    let original = manager.get();
    assert_eq!(original, AppState::Active);
    let paused = manager.toggle_pause();
    assert_eq!(paused, AppState::Paused);
    let resumed = manager.toggle_pause();
    assert_eq!(resumed, AppState::Active);
    assert_eq!(resumed.icon_color(), original.icon_color());
    assert_eq!(resumed.is_listening(), original.is_listening());
    assert_eq!(resumed.is_transcribing(), original.is_transcribing());
}
