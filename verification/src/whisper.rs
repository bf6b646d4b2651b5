//! The reading side of a transcription connection: what is kept of the
//! backend's answers, and the transcript that comes out at the end.

use crate::registry::Reciever;
use crate::storage::{StorageMessage, StorageMessageView};
use vstd::prelude::*;

verus! {

/// What the reader got from the backend.
#[derive(Debug, Clone, PartialEq, Eq)]
pub enum BackendEvent {
    /// A payload that was parsed, with its text.
    Payload(String),
    /// A payload that could not be read as text or could not be parsed.
    Malformed,
    /// The backend closed the stream, or reading from it failed.
    Closed,
}

/// Mathematical value of a [`BackendEvent`].
pub enum BackendEventView {
    Payload(Seq<char>),
    Malformed,
    Closed,
}

impl View for BackendEvent {
    type V = BackendEventView;

    open spec fn view(&self) -> BackendEventView {
        match *self {
            BackendEvent::Payload(text) => BackendEventView::Payload(text@),
            BackendEvent::Malformed => BackendEventView::Malformed,
            BackendEvent::Closed => BackendEventView::Closed,
        }
    }
}

/// What is kept after one more event: a non-empty payload replaces what was
/// kept; anything else leaves it.
pub open spec fn kept_after(kept: Seq<char>, event: BackendEventView) -> Seq<char> {
    match event {
        BackendEventView::Payload(text) => if text.len() > 0 {
            text
        } else {
            kept
        },
        _ => kept,
    }
}

/// Whether the stream goes on after an event: only a parsed payload lets it.
pub open spec fn goes_on(event: BackendEventView) -> bool {
    event is Payload
}

/// What is kept after a run of parsed payloads, starting from `kept`.
pub open spec fn kept_after_all(kept: Seq<char>, payloads: Seq<Seq<char>>) -> Seq<char>
    decreases payloads.len(),
{
    if payloads.len() == 0 {
        kept
    } else {
        kept_after(
            kept_after_all(kept, payloads.drop_last()),
            BackendEventView::Payload(payloads.last()),
        )
    }
}

/// What is kept of a run of parsed payloads: the last one that is not empty,
/// or nothing.
pub open spec fn last_non_empty(payloads: Seq<Seq<char>>) -> Seq<char>
    decreases payloads.len(),
{
    if payloads.len() == 0 {
        Seq::empty()
    } else if payloads.last().len() > 0 {
        payloads.last()
    } else {
        last_non_empty(payloads.drop_last())
    }
}

/// The transcript that a stream ends with: none where nothing was kept.
pub open spec fn transcript_of(
    kept: Seq<char>,
    author: Seq<char>,
    channel: u64,
) -> Option<StorageMessageView> {
    if kept.len() == 0 {
        None
    } else {
        Some(StorageMessageView { message: kept, author, channel })
    }
}

/// The text kept while the answers of one transcription stream are read.
#[derive(Debug)]
pub struct Transcription {
    full_transcription: String,
}

impl View for Transcription {
    type V = Seq<char>;

    closed spec fn view(&self) -> Seq<char> {
        self.full_transcription@
    }
}

impl Transcription {
    /// Nothing kept yet.
    pub fn new() -> (t: Self)
        ensures
            t@ == Seq::<char>::empty(),
    {
        Transcription { full_transcription: String::new() }
    }

    /// Whether nothing is kept.
    pub fn is_empty(&self) -> (empty: bool)
        ensures
            empty == (self@.len() == 0),
    {
        self.full_transcription.as_str().is_empty()
    }

    /// Takes one event of the stream. Returns whether reading goes on.
    pub fn observe(&mut self, event: BackendEvent) -> (more: bool)
        ensures
            final(self)@ == kept_after(old(self)@, event@),
            more == goes_on(event@),
    {
        match event {
            BackendEvent::Payload(text) => {
                if !text.as_str().is_empty() {
                    self.full_transcription = text;
                }
                true
            },
            BackendEvent::Malformed => false,
            BackendEvent::Closed => false,
        }
    }

    /// Ends the stream: the kept text as a transcript of `author` in
    /// `channel`, or `None` where nothing was kept.
    pub fn finish(self, author: String, channel: u64) -> (transcript: Option<StorageMessage>)
        ensures
            transcript is None <==> self@.len() == 0,
            transcript matches Some(m) ==> Some(m@) == transcript_of(self@, author@, channel),
    {
        if self.full_transcription.as_str().is_empty() {
            None
        } else {
            Some(StorageMessage { message: self.full_transcription, author, channel })
        }
    }
}

impl Reciever {
    /// The identity under which `ssrc` is known now; the unresolved identity
    /// for a source that the registry has not seen.
    pub fn identity(&self, ssrc: u32) -> (identity: String)
        ensures
            identity@ == self@.identity(ssrc),
    {
        match self.speaker(ssrc) {
            Some(known) => known.identity,
            None => String::new(),
        }
    }

    /// The transcript of a finished stream of `ssrc`, under the identity that
    /// the source has at this moment and in the channel that its pipeline was
    /// bound to. `None` where the stream left nothing.
    pub fn transcript(
        &self,
        ssrc: u32,
        channel: u64,
        transcription: Transcription,
    ) -> (transcript: Option<StorageMessage>)
        ensures
            transcript is None <==> transcription@.len() == 0,
            transcript matches Some(m) ==> Some(m@) == transcript_of(
                transcription@,
                self@.identity(ssrc),
                channel,
            ),
    {
        let author: String = self.identity(ssrc);
        transcription.finish(author, channel)
    }
}

/// What is kept after a run of parsed payloads is the last of them that is
/// not empty.
pub proof fn law_keeps_last_non_empty(payloads: Seq<Seq<char>>)
    ensures
        kept_after_all(Seq::empty(), payloads) == last_non_empty(payloads),
    decreases payloads.len(),
{
    if payloads.len() > 0 {
        law_keeps_last_non_empty(payloads.drop_last());
    }
}

} // verus!
