//! The text-channel side: what becomes of a chat message, how a message that
//! the channel found too long is split, and the wording of command replies.

use crate::storage::{StorageMessage, StorageMessageView};
use vstd::prelude::*;

verus! {

/// Where a text is cut when the channel reported it `codepoints_over`
/// characters too long: in front of its last `codepoints_over + 1`
/// characters.
pub open spec fn split_point(codepoints_over: int, length: int) -> int {
    length - 1 - codepoints_over
}

/// Splits a text in two, in front of its last `codepoints_over + 1`
/// characters.
pub fn split_string(codepoints_over: usize, original_string: String) -> (parts: (String, String))
    requires
        codepoints_over < original_string@.len(),
    ensures
        parts.0@ == original_string@.subrange(
            0,
            split_point(codepoints_over as int, original_string@.len() as int),
        ),
        parts.1@ == original_string@.subrange(
            split_point(codepoints_over as int, original_string@.len() as int),
            original_string@.len() as int,
        ),
        parts.0@ + parts.1@ == original_string@,
        parts.1@.len() == codepoints_over + 1,
{
    let text: &str = original_string.as_str();
    let length: usize = text.unicode_len();
    let cut: usize = length - 1 - codepoints_over;
    let first: String = text.substring_char(0, cut).to_owned();
    let second: String = text.substring_char(cut, length).to_owned();
    assert(first@ + second@ =~= original_string@);
    (first, second)
}

/// How the channel answered an attempt to post a text.
#[derive(Clone, Copy, Debug, PartialEq, Eq, Structural)]
pub enum PostOutcome {
    /// The text was posted.
    Posted,
    /// The text was refused as this many characters too long.
    TooLong(usize),
    /// The text was refused for another reason.
    Refused,
}

/// The texts to post after an attempt to post `message`: the two parts of a
/// message that was too long, nothing otherwise.
pub open spec fn follow_up_texts(message: Seq<char>, outcome: PostOutcome) -> Seq<Seq<char>> {
    match outcome {
        PostOutcome::TooLong(over) => seq![
            message.subrange(0, split_point(over as int, message.len() as int)),
            message.subrange(split_point(over as int, message.len() as int), message.len() as int),
        ],
        _ => Seq::empty(),
    }
}

/// Mathematical value of a list of texts.
pub open spec fn texts_view(texts: Seq<String>) -> Seq<Seq<char>> {
    texts.map_values(|t: String| t@)
}

/// Decides what to post after an attempt to post `message`: a message that
/// was too long is posted again as two parts; otherwise nothing follows.
pub fn follow_up_posts(message: String, outcome: PostOutcome) -> (posts: Vec<String>)
    requires
        outcome matches PostOutcome::TooLong(over) ==> over < message@.len(),
    ensures
        texts_view(posts@) == follow_up_texts(message@, outcome),
{
    let mut posts: Vec<String> = Vec::new();
    match outcome {
        PostOutcome::TooLong(over) => {
            let (first, second) = split_string(over, message);
            posts.push(first);
            posts.push(second);
        },
        _ => {},
    }
    assert(texts_view(posts@) =~= follow_up_texts(message@, outcome));
    posts
}

/// What is stored of a chat message: nothing for a message of a bot, else
/// the message under its author's name.
pub open spec fn chat_record(
    author_is_bot: bool,
    author: Seq<char>,
    content: Seq<char>,
    channel: u64,
) -> Option<StorageMessageView> {
    if author_is_bot {
        None
    } else {
        Some(StorageMessageView { message: content, author, channel })
    }
}

/// Decides what to store of a chat message.
pub fn chat_message(
    author_is_bot: bool,
    author: String,
    content: String,
    channel: u64,
) -> (record: Option<StorageMessage>)
    ensures
        record is None <==> author_is_bot,
        record matches Some(m) ==> Some(m@) == chat_record(author_is_bot, author@, content@, channel),
{
    if author_is_bot {
        None
    } else {
        Some(StorageMessage { message: content, author, channel })
    }
}

/// The reply to the question when an account was created.
pub fn age_response(name: &str, created_at: &str) -> (response: String)
    ensures
        response@ == name@ + "'s account was created at "@ + created_at@,
{
    let mut response: String = String::from_str(name);
    response.append("'s account was created at ");
    response.append(created_at);
    response
}

/// The reply to a request to join, by the mention of the voice channel that
/// the author is in, if any.
pub fn join_reply(channel_mention: Option<&str>) -> (reply: String)
    ensures
        reply@ == match channel_mention {
            Some(mention) => "Joined "@ + mention@,
            None => "Not in a voice channel"@,
        },
{
    match channel_mention {
        Some(mention) => {
            let mut reply: String = String::from_str("Joined ");
            reply.append(mention);
            reply
        },
        None => String::from_str("Not in a voice channel"),
    }
}

} // verus!
