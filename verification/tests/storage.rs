use voice_relay::storage::{mentions_phrase, should_activate, StorageMessage};

fn message(text: &str, author: &str) -> StorageMessage {
    StorageMessage { message: text.to_string(), author: author.to_string(), channel: 1 }
}

#[test]
fn phrase_in_other_case_activates() {
    assert!(should_activate(&message("HEY LILY, what is up?", "Ann"), "hey lily", "Lily"));
    assert!(should_activate(&message("well, hey lily", "Ann"), "Hey Lily", "Lily"));
    assert!(should_activate(&message("ÄRGER mit ÖL", "Ann"), "ärger", "Lily"));
}

#[test]
fn message_without_the_phrase_does_not_activate() {
    assert!(!should_activate(&message("hey there", "Ann"), "hey lily", "Lily"));
    assert!(!should_activate(&message("hey lil", "Ann"), "hey lily", "Lily"));
    assert!(!should_activate(&message("", "Ann"), "hey lily", "Lily"));
}

#[test]
fn the_bot_never_activates_itself() {
    assert!(!should_activate(&message("hey lily", "Lily"), "hey lily", "Lily"));
    assert!(should_activate(&message("hey lily", "lily"), "hey lily", "Lily"));
}

#[test]
fn empty_phrase_occurs_everywhere() {
    assert!(should_activate(&message("anything", "Ann"), "", "Lily"));
    assert!(should_activate(&message("", "Ann"), "", "Lily"));
}

#[test]
fn mentions_phrase_compares_as_given() {
    assert!(mentions_phrase("say hey lily now", "hey lily", "Ann", "Lily"));
    assert!(!mentions_phrase("say HEY LILY now", "hey lily", "Ann", "Lily"));
    assert!(!mentions_phrase("say hey lily now", "hey lily", "Lily", "Lily"));
    assert!(mentions_phrase("hey lily", "hey lily", "Ann", "Lily"));
    assert!(!mentions_phrase("ey lily", "hey lily", "Ann", "Lily"));
}
