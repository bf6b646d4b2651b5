use voice_relay::discord::{
    age_response, chat_message, follow_up_posts, join_reply, split_string, PostOutcome,
};
use voice_relay::storage::StorageMessage;

#[test]
fn split_cuts_in_front_of_the_last_characters() {
    assert_eq!(
        split_string(0, "abcdef".to_string()),
        ("abcde".to_string(), "f".to_string())
    );
    assert_eq!(
        split_string(2, "abcdef".to_string()),
        ("abc".to_string(), "def".to_string())
    );
    assert_eq!(
        split_string(5, "abcdef".to_string()),
        (String::new(), "abcdef".to_string())
    );
}

#[test]
fn split_counts_characters_not_bytes() {
    assert_eq!(
        split_string(1, "añb€c".to_string()),
        ("añb".to_string(), "€c".to_string())
    );
    assert_eq!(split_string(0, "€".to_string()), (String::new(), "€".to_string()));
}

#[test]
fn split_agrees_with_a_reverse_character_walk() {
    let text = "The quick brown fox — jumps over the lazy dog ✓".to_string();
    for over in 0..text.chars().count() {
        let at = text.char_indices().rev().nth(over).map(|(i, _)| i).unwrap();
        assert_eq!(
            split_string(over, text.clone()),
            (text[..at].to_string(), text[at..].to_string())
        );
    }
}

#[test]
fn too_long_message_is_posted_again_in_two_parts() {
    assert_eq!(
        follow_up_posts("abcdef".to_string(), PostOutcome::TooLong(1)),
        vec!["abcd".to_string(), "ef".to_string()]
    );
}

#[test]
fn nothing_follows_a_posted_or_refused_message() {
    assert_eq!(follow_up_posts("abcdef".to_string(), PostOutcome::Posted), Vec::<String>::new());
    assert_eq!(follow_up_posts("abcdef".to_string(), PostOutcome::Refused), Vec::<String>::new());
    assert_eq!(follow_up_posts(String::new(), PostOutcome::Posted), Vec::<String>::new());
}

#[test]
fn chat_message_of_a_person_is_stored() {
    assert_eq!(
        chat_message(false, "Ann".to_string(), "hey lily".to_string(), 12),
        Some(StorageMessage {
            message: "hey lily".to_string(),
            author: "Ann".to_string(),
            channel: 12,
        })
    );
}

#[test]
fn chat_message_of_a_bot_is_not_stored() {
    assert_eq!(chat_message(true, "Jukebox".to_string(), "now playing".to_string(), 12), None);
}

#[test]
fn age_response_wording() {
    assert_eq!(
        age_response("ann", "2020-01-02T03:04:05Z"),
        "ann's account was created at 2020-01-02T03:04:05Z"
    );
}

#[test]
fn join_reply_wording() {
    assert_eq!(join_reply(Some("<#123>")), "Joined <#123>");
    assert_eq!(join_reply(None), "Not in a voice channel");
}
