//! Messages bound for the store, and the rule that decides whether a stored
//! message asks for a reply.

use vstd::prelude::*;

verus! {

/// One message as it is stored: a transcript, a chat message or a reply.
#[derive(Debug, Clone, PartialEq, Eq)]
pub struct StorageMessage {
    pub message: String,
    pub author: String,
    pub channel: u64,
}

/// Mathematical value of a [`StorageMessage`].
pub struct StorageMessageView {
    pub message: Seq<char>,
    pub author: Seq<char>,
    pub channel: u64,
}

impl View for StorageMessage {
    type V = StorageMessageView;

    open spec fn view(&self) -> StorageMessageView {
        StorageMessageView { message: self.message@, author: self.author@, channel: self.channel }
    }
}

/// The lowercase form of a text, as `str::to_lowercase` gives it.
pub uninterp spec fn lowercase_of(text: Seq<char>) -> Seq<char>;

/// Whether `needle` occurs in `haystack` as a run of consecutive characters.
pub open spec fn occurs_in(needle: Seq<char>, haystack: Seq<char>) -> bool {
    exists|start: int|
        0 <= start && start + needle.len() <= haystack.len() && #[trigger] haystack.subrange(
            start,
            start + needle.len(),
        ) == needle
}

/// Whether a stored message asks for a reply: its text holds the activation
/// phrase, letter case aside, and it was not written by the bot itself.
pub open spec fn activates(message: StorageMessageView, phrase: Seq<char>, bot_name: Seq<char>) -> bool {
    occurs_in(lowercase_of(phrase), lowercase_of(message.message)) && message.author != bot_name
}

/// `str::to_lowercase`: the lowercase form of `text`. The result depends on
/// `text` alone.
#[verifier::external_body]
fn to_lowercase(text: &str) -> (lowered: String)
    ensures
        lowered@ == lowercase_of(text@),
{
    text.to_lowercase()
}

/// `str::contains` with a string pattern: whether `needle` matches a
/// sub-slice of `haystack`.
#[verifier::external_body]
fn contains(haystack: &str, needle: &str) -> (found: bool)
    ensures
        found == occurs_in(needle@, haystack@),
{
    haystack.contains(needle)
}

/// Decides on texts that are already in lowercase whether a message asks for
/// a reply: the phrase occurs in the message, and the author is not the bot.
pub fn mentions_phrase(
    lowered_message: &str,
    lowered_phrase: &str,
    author: &str,
    bot_name: &str,
) -> (asked: bool)
    ensures
        asked == (occurs_in(lowered_phrase@, lowered_message@) && author@ != bot_name@),
{
    if contains(lowered_message, lowered_phrase) {
        !same_text(author, bot_name)
    } else {
        false
    }
}

/// Whether two texts are equal.
fn same_text(left: &str, right: &str) -> (same: bool)
    ensures
        same == (left@ == right@),
{
    let a: String = left.to_owned();
    let b: String = right.to_owned();
    a == b
}

/// Decides whether a stored message asks for a reply.
pub fn should_activate(message: &StorageMessage, activation_phrase: &str, bot_name: &str) -> (asked: bool)
    ensures
        asked == activates(message@, activation_phrase@, bot_name@),
{
    let lowered_message: String = to_lowercase(message.message.as_str());
    let lowered_phrase: String = to_lowercase(activation_phrase);
    mentions_phrase(
        lowered_message.as_str(),
        lowered_phrase.as_str(),
        message.author.as_str(),
        bot_name,
    )
}

} // verus!
