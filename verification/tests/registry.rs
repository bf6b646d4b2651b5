use voice_relay::registry::{DirectoryEntry, Reciever, Speaker};

fn human(name: &str) -> Option<DirectoryEntry> {
    Some(DirectoryEntry { name: name.to_string(), is_bot: false })
}

#[test]
fn new_receiver_knows_nobody() {
    let receiver = Reciever::new(77);
    assert_eq!(receiver.default_channel(), 77);
    assert_eq!(receiver.speaker(1), None);
    assert_eq!(receiver.handles_left(), u64::MAX);
    assert_eq!(receiver.identity(1), "");
}

#[test]
fn get_or_create_inserts_a_first_sighting() {
    let mut receiver = Reciever::new(1);
    let created = receiver.get_or_create(42);
    assert_eq!(created, Speaker { ssrc: 42, identity: String::new(), pipeline: None });
    assert_eq!(receiver.speaker(42), Some(created));
    assert_eq!(receiver.speaker(43), None);
}

#[test]
fn get_or_create_never_replaces_an_entry() {
    let mut receiver = Reciever::new(1);
    receiver.resolve_identity(42, human("Ann"));
    let handle = receiver.attach_pipeline(42);
    let found = receiver.get_or_create(42);
    assert_eq!(found, Speaker { ssrc: 42, identity: "Ann".to_string(), pipeline: Some(handle) });
    assert_eq!(receiver.speaker(42), Some(found));
}

#[test]
fn resolve_identity_creates_the_entry() {
    let mut receiver = Reciever::new(1);
    receiver.resolve_identity(5, human("Ann"));
    assert_eq!(
        receiver.speaker(5),
        Some(Speaker { ssrc: 5, identity: "Ann".to_string(), pipeline: None })
    );
}

#[test]
fn resolve_identity_of_a_bot_gives_the_bot_identity() {
    let mut receiver = Reciever::new(1);
    receiver.resolve_identity(5, Some(DirectoryEntry { name: "Jukebox".to_string(), is_bot: true }));
    assert_eq!(receiver.identity(5), "Bot");
}

#[test]
fn resolve_identity_keeps_the_pipeline() {
    let mut receiver = Reciever::new(1);
    let handle = receiver.attach_pipeline(5);
    receiver.resolve_identity(5, human("Ann"));
    assert_eq!(
        receiver.speaker(5),
        Some(Speaker { ssrc: 5, identity: "Ann".to_string(), pipeline: Some(handle) })
    );
    receiver.resolve_identity(5, human("Bea"));
    assert_eq!(
        receiver.speaker(5),
        Some(Speaker { ssrc: 5, identity: "Bea".to_string(), pipeline: Some(handle) })
    );
}

#[test]
fn failed_lookup_changes_nothing() {
    let mut receiver = Reciever::new(1);
    receiver.resolve_identity(5, None);
    assert_eq!(receiver.speaker(5), None);
    receiver.resolve_identity(5, human("Ann"));
    receiver.resolve_identity(5, None);
    assert_eq!(receiver.identity(5), "Ann");
}

#[test]
fn clear_pipeline_keeps_the_entry() {
    let mut receiver = Reciever::new(1);
    receiver.resolve_identity(5, human("Ann"));
    receiver.attach_pipeline(5);
    receiver.clear_pipeline(5);
    assert_eq!(
        receiver.speaker(5),
        Some(Speaker { ssrc: 5, identity: "Ann".to_string(), pipeline: None })
    );
}

#[test]
fn clear_pipeline_of_an_unknown_source_creates_nothing() {
    let mut receiver = Reciever::new(1);
    receiver.clear_pipeline(5);
    assert_eq!(receiver.speaker(5), None);
}

#[test]
fn handles_are_consecutive_and_never_shared() {
    let mut receiver = Reciever::new(1);
    assert_eq!(receiver.attach_pipeline(10), 0);
    assert_eq!(receiver.attach_pipeline(11), 1);
    assert_eq!(receiver.attach_pipeline(10), 2);
    assert_eq!(receiver.handles_left(), u64::MAX - 3);
    assert_eq!(receiver.speaker(10).unwrap().pipeline, Some(2));
    assert_eq!(receiver.speaker(11).unwrap().pipeline, Some(1));
}

#[test]
fn entries_of_other_sources_are_untouched() {
    let mut receiver = Reciever::new(1);
    receiver.resolve_identity(1, human("Ann"));
    receiver.resolve_identity(2, human("Bea"));
    receiver.attach_pipeline(1);
    receiver.clear_pipeline(2);
    receiver.get_or_create(3);
    assert_eq!(
        receiver.speaker(1),
        Some(Speaker { ssrc: 1, identity: "Ann".to_string(), pipeline: Some(0) })
    );
    assert_eq!(
        receiver.speaker(2),
        Some(Speaker { ssrc: 2, identity: "Bea".to_string(), pipeline: None })
    );
}
