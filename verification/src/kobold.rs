//! The text side of a reply request: the prompt built from a channel's
//! history, the address of the generation endpoint, and what is done with
//! the backend's answer.

use crate::storage::{StorageMessage, StorageMessageView};
use vstd::prelude::*;

verus! {

/// One message of a channel's history, as the store hands it out.
#[derive(Debug, Clone, PartialEq, Eq)]
pub struct StoredMessage {
    pub message: String,
    pub author: String,
}

/// Mathematical value of a [`StoredMessage`].
pub struct StoredMessageView {
    pub message: Seq<char>,
    pub author: Seq<char>,
}

impl View for StoredMessage {
    type V = StoredMessageView;

    open spec fn view(&self) -> StoredMessageView {
        StoredMessageView { message: self.message@, author: self.author@ }
    }
}

pub const TEXT_START: &'static str = "<|begin_of_text|>";

pub const TEXT_END: &'static str = "<|eot_id|>";

pub const HEADER_START: &'static str = "<|start_header_id|>";

pub const HEADER_END: &'static str = "<|end_header_id|>";

pub const AI_DESC: &'static str =
    "You are a discord bot named Lily on a server called Big Gay Rock. You are speaking to the members of the server and will help them with whatever they ask.";

/// The path of the generation endpoint below the server's address.
pub const GENERATE_PATH: &'static str = "api/v1/generate";

/// The opening turn of every prompt: the system's description of the bot.
pub open spec fn system_turn() -> Seq<char> {
    TEXT_START@ + HEADER_START@ + "system"@ + HEADER_END@ + "\n\n"@ + AI_DESC@ + TEXT_END@
}

/// The turn of one message of the history.
pub open spec fn user_turn(message: StoredMessageView) -> Seq<char> {
    HEADER_START@ + "user"@ + HEADER_END@ + "\n\n"@ + message.author + ": "@ + message.message
        + TEXT_END@
}

/// The turns of a history, one after the other.
pub open spec fn user_turns(messages: Seq<StoredMessageView>) -> Seq<char>
    decreases messages.len(),
{
    if messages.len() == 0 {
        Seq::empty()
    } else {
        user_turns(messages.drop_last()) + user_turn(messages.last())
    }
}

/// The start of the bot's own turn, which the backend is to continue.
pub open spec fn assistant_start(bot_name: Seq<char>) -> Seq<char> {
    HEADER_START@ + "assistant"@ + HEADER_END@ + "\n\n"@ + bot_name + ":"@
}

/// The whole prompt for a history and a bot name.
pub open spec fn prompt_text(messages: Seq<StoredMessageView>, bot_name: Seq<char>) -> Seq<char> {
    system_turn() + user_turns(messages) + assistant_start(bot_name)
}

/// Mathematical value of a history.
pub open spec fn history_view(messages: Seq<StoredMessage>) -> Seq<StoredMessageView> {
    messages.map_values(|m: StoredMessage| m@)
}

/// Builds the prompt: the system turn, one user turn for each message of the
/// history in order, and the start of the bot's turn.
pub fn build_prompt(messages: &Vec<StoredMessage>, bot_name: &str) -> (prompt: String)
    ensures
        prompt@ == prompt_text(history_view(messages@), bot_name@),
{
    let mut prompt: String = String::from_str(TEXT_START);
    prompt.append(HEADER_START);
    prompt.append("system");
    prompt.append(HEADER_END);
    prompt.append("\n\n");
    prompt.append(AI_DESC);
    prompt.append(TEXT_END);
    let ghost history = history_view(messages@);
    let mut i: usize = 0;
    while i < messages.len()
        invariant
            i <= messages.len(),
            history == history_view(messages@),
            prompt@ == system_turn() + user_turns(history.take(i as int)),
        decreases messages.len() - i,
    {
        let ghost before = prompt@;
        prompt.append(HEADER_START);
        prompt.append("user");
        prompt.append(HEADER_END);
        prompt.append("\n\n");
        prompt.append(messages[i].author.as_str());
        prompt.append(": ");
        prompt.append(messages[i].message.as_str());
        prompt.append(TEXT_END);
        proof {
            assert(history.take(i + 1).drop_last() =~= history.take(i as int));
            assert(history.take(i + 1).last() == messages@[i as int]@);
            assert(prompt@ =~= before + user_turn(messages@[i as int]@));
            assert(prompt@ =~= system_turn() + user_turns(history.take(i + 1)));
        }
        i = i + 1;
    }
    assert(history.take(messages.len() as int) =~= history);
    let ghost turns = prompt@;
    prompt.append(HEADER_START);
    prompt.append("assistant");
    prompt.append(HEADER_END);
    prompt.append("\n\n");
    prompt.append(bot_name);
    prompt.append(":");
    assert(prompt@ =~= turns + assistant_start(bot_name@));
    prompt
}

/// The address of the generation endpoint of a server: the server's address,
/// a slash unless it ends in one, and the endpoint's path.
pub open spec fn endpoint_text(server: Seq<char>) -> Seq<char>
    recommends
        server.len() > 0,
{
    if server.last() == '/' {
        server + GENERATE_PATH@
    } else {
        server + "/"@ + GENERATE_PATH@
    }
}

/// Builds the address of the generation endpoint of `server`.
pub fn generate_endpoint(server: String) -> (endpoint: String)
    requires
        server@.len() > 0,
    ensures
        endpoint@ == endpoint_text(server@),
{
    let length: usize = server.as_str().unicode_len();
    let last: char = server.as_str().get_char(length - 1);
    let mut endpoint: String = server;
    if last != '/' {
        endpoint.append("/");
    }
    endpoint.append(GENERATE_PATH);
    endpoint
}

/// What an answer of the generation backend means, by its status.
#[derive(Clone, Copy, Debug, PartialEq, Eq, Structural)]
pub enum GenerationOutcome {
    /// Status 200: the body holds the generated texts.
    Generated,
    /// Status 503: the backend is busy; the body says why.
    Busy,
    /// Any other status.
    Unexpected,
}

/// The meaning of a status.
pub open spec fn outcome_of(status: u16) -> GenerationOutcome {
    if status == 200 {
        GenerationOutcome::Generated
    } else if status == 503 {
        GenerationOutcome::Busy
    } else {
        GenerationOutcome::Unexpected
    }
}

/// Classifies the answer of the generation backend by its status.
pub fn classify_status(status: u16) -> (outcome: GenerationOutcome)
    ensures
        outcome == outcome_of(status),
{
    if status == 200 {
        GenerationOutcome::Generated
    } else if status == 503 {
        GenerationOutcome::Busy
    } else {
        GenerationOutcome::Unexpected
    }
}

/// The record of one generated text: written by the bot, in the channel that
/// asked.
pub open spec fn reply_record(text: Seq<char>, bot_name: Seq<char>, channel: u64) -> StorageMessageView {
    StorageMessageView { message: text, author: bot_name, channel }
}

/// The records of the generated texts, in order.
pub open spec fn reply_records(texts: Seq<String>, bot_name: Seq<char>, channel: u64) -> Seq<
    StorageMessageView,
> {
    texts.map_values(|text: String| reply_record(text@, bot_name, channel))
}

/// Mathematical value of a list of messages bound for the store.
pub open spec fn records_view(records: Seq<StorageMessage>) -> Seq<StorageMessageView> {
    records.map_values(|m: StorageMessage| m@)
}

/// Turns the generated texts into the messages to post and to store: one for
/// each text, in order, written by the bot in `channel`.
pub fn replies_to_store(texts: Vec<String>, bot_name: &str, channel: u64) -> (records: Vec<StorageMessage>)
    ensures
        records_view(records@) == reply_records(texts@, bot_name@, channel),
{
    let mut records: Vec<StorageMessage> = Vec::new();
    let mut i: usize = 0;
    while i < texts.len()
        invariant
            i <= texts.len(),
            records@.len() == i,
            forall|k: int|
                0 <= k < i ==> (#[trigger] records@[k])@ == reply_record(
                    texts@[k]@,
                    bot_name@,
                    channel,
                ),
        decreases texts.len() - i,
    {
        records.push(
            StorageMessage {
                message: texts[i].clone(),
                author: String::from_str(bot_name),
                channel,
            },
        );
        i = i + 1;
    }
    assert(records_view(records@) =~= reply_records(texts@, bot_name@, channel));
    records
}

} // verus!
