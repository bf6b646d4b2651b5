//! The speaker pipeline as a state machine.
//!
//! A pipeline owns one connection to the transcription backend at a time. It
//! takes raw frames from its input queue, resamples them and writes them to
//! the connection. The machine decides; the host does the outside work. Each
//! state waits for the outcome of exactly one action, given by [`pending`],
//! and [`Pipeline::step`] turns that outcome into the next state and the next
//! action.

use crate::resample::{resample_discord_to_bytes, resampled};
use vstd::prelude::*;

verus! {

/// The five states of a pipeline's life.
#[derive(Clone, Copy, Debug, PartialEq, Eq, Structural)]
pub enum PipelineState {
    Connecting,
    Streaming,
    Reconnecting,
    Finalizing,
    Closed,
}

/// A pipeline, with what it holds in each state.
#[derive(Clone, Debug, PartialEq, Eq)]
pub enum Pipeline {
    /// The first connection is being established.
    Connecting,
    /// Streaming; the next frame of the input queue is awaited.
    Awaiting,
    /// Streaming; `frame` is being written. `resend` tells that this is the
    /// second attempt for it, on a connection made after the first failed.
    Sending { frame: Vec<u8>, resend: bool },
    /// The connection failed while `frame` was written; a new one is being
    /// established.
    Reconnecting { frame: Vec<u8> },
    /// The input queue is closed; the connection is being closed.
    Finalizing,
    /// Terminal.
    Closed,
}

/// Mathematical value of a [`Pipeline`].
pub enum PipelineView {
    Connecting,
    Awaiting,
    Sending { frame: Seq<u8>, resend: bool },
    Reconnecting { frame: Seq<u8> },
    Finalizing,
    Closed,
}

impl View for Pipeline {
    type V = PipelineView;

    open spec fn view(&self) -> PipelineView {
        match *self {
            Pipeline::Connecting => PipelineView::Connecting,
            Pipeline::Awaiting => PipelineView::Awaiting,
            Pipeline::Sending { frame, resend } => PipelineView::Sending { frame: frame@, resend },
            Pipeline::Reconnecting { frame } => PipelineView::Reconnecting { frame: frame@ },
            Pipeline::Finalizing => PipelineView::Finalizing,
            Pipeline::Closed => PipelineView::Closed,
        }
    }
}

/// The outcome of an action, as the host reports it.
#[derive(Clone, Debug, PartialEq, Eq)]
pub enum PipelineEvent {
    /// A connection has been established.
    Connected,
    /// No connection could be established.
    ConnectFailed,
    /// The input queue handed out a raw frame.
    Frame(Vec<i16>),
    /// The frame has been written to the connection.
    Sent,
    /// Writing the frame failed.
    SendFailed,
    /// The input queue is closed and empty.
    InputClosed,
    /// The connection has been closed.
    ConnectionClosed,
}

/// Mathematical value of a [`PipelineEvent`].
pub enum PipelineEventView {
    Connected,
    ConnectFailed,
    Frame(Seq<i16>),
    Sent,
    SendFailed,
    InputClosed,
    ConnectionClosed,
}

impl View for PipelineEvent {
    type V = PipelineEventView;

    open spec fn view(&self) -> PipelineEventView {
        match *self {
            PipelineEvent::Connected => PipelineEventView::Connected,
            PipelineEvent::ConnectFailed => PipelineEventView::ConnectFailed,
            PipelineEvent::Frame(samples) => PipelineEventView::Frame(samples@),
            PipelineEvent::Sent => PipelineEventView::Sent,
            PipelineEvent::SendFailed => PipelineEventView::SendFailed,
            PipelineEvent::InputClosed => PipelineEventView::InputClosed,
            PipelineEvent::ConnectionClosed => PipelineEventView::ConnectionClosed,
        }
    }
}

/// What the host is asked to do next.
#[derive(Clone, Debug, PartialEq, Eq)]
pub enum PipelineAction {
    /// Open a connection to the backend, dropping the old one if any.
    Connect,
    /// Wait for the next raw frame of the input queue.
    AwaitFrame,
    /// Write these bytes to the connection as one binary frame.
    Send(Vec<u8>),
    /// Close the connection cleanly, so that the backend flushes its result.
    CloseConnection,
    /// Leave; the pipeline is over.
    Exit,
}

/// Mathematical value of a [`PipelineAction`].
pub enum PipelineActionView {
    Connect,
    AwaitFrame,
    Send(Seq<u8>),
    CloseConnection,
    Exit,
}

impl View for PipelineAction {
    type V = PipelineActionView;

    open spec fn view(&self) -> PipelineActionView {
        match *self {
            PipelineAction::Connect => PipelineActionView::Connect,
            PipelineAction::AwaitFrame => PipelineActionView::AwaitFrame,
            PipelineAction::Send(bytes) => PipelineActionView::Send(bytes@),
            PipelineAction::CloseConnection => PipelineActionView::CloseConnection,
            PipelineAction::Exit => PipelineActionView::Exit,
        }
    }
}

/// The state of the pipeline's life that `p` is in.
pub open spec fn state_of(p: PipelineView) -> PipelineState {
    match p {
        PipelineView::Connecting => PipelineState::Connecting,
        PipelineView::Awaiting => PipelineState::Streaming,
        PipelineView::Sending { .. } => PipelineState::Streaming,
        PipelineView::Reconnecting { .. } => PipelineState::Reconnecting,
        PipelineView::Finalizing => PipelineState::Finalizing,
        PipelineView::Closed => PipelineState::Closed,
    }
}

/// The action whose outcome `p` waits for.
pub open spec fn pending(p: PipelineView) -> PipelineActionView {
    match p {
        PipelineView::Connecting => PipelineActionView::Connect,
        PipelineView::Awaiting => PipelineActionView::AwaitFrame,
        PipelineView::Sending { frame, .. } => PipelineActionView::Send(frame),
        PipelineView::Reconnecting { .. } => PipelineActionView::Connect,
        PipelineView::Finalizing => PipelineActionView::CloseConnection,
        PipelineView::Closed => PipelineActionView::Exit,
    }
}

/// The state that follows `p` on `event`, or `None` where `event` is no
/// outcome of the action that `p` waits for.
///
/// A failed write leads to one reconnect, after which the same frame is
/// written again; if that write fails too, or if no connection can be
/// established, the pipeline is over.
pub open spec fn next(p: PipelineView, event: PipelineEventView) -> Option<PipelineView> {
    match (p, event) {
        (PipelineView::Connecting, PipelineEventView::Connected) => Some(PipelineView::Awaiting),
        (PipelineView::Connecting, PipelineEventView::ConnectFailed) => Some(PipelineView::Closed),
        (PipelineView::Awaiting, PipelineEventView::Frame(samples)) => Some(
            PipelineView::Sending { frame: resampled(samples), resend: false },
        ),
        (PipelineView::Awaiting, PipelineEventView::InputClosed) => Some(PipelineView::Finalizing),
        (PipelineView::Sending { .. }, PipelineEventView::Sent) => Some(PipelineView::Awaiting),
        (PipelineView::Sending { frame, resend }, PipelineEventView::SendFailed) => if resend {
            Some(PipelineView::Closed)
        } else {
            Some(PipelineView::Reconnecting { frame })
        },
        (PipelineView::Reconnecting { frame }, PipelineEventView::Connected) => Some(
            PipelineView::Sending { frame, resend: true },
        ),
        (PipelineView::Reconnecting { .. }, PipelineEventView::ConnectFailed) => Some(
            PipelineView::Closed,
        ),
        (PipelineView::Finalizing, PipelineEventView::ConnectionClosed) => Some(PipelineView::Closed),
        _ => None,
    }
}

/// A copy of `bytes`.
fn copy_of(bytes: &Vec<u8>) -> (copy: Vec<u8>)
    ensures
        copy@ == bytes@,
{
    let copy = bytes.clone();
    assert(copy@ =~= bytes@);
    copy
}

impl Pipeline {
    /// A pipeline at the start of its life; its first action is to connect.
    pub fn new() -> (p: Self)
        ensures
            p@ == PipelineView::Connecting,
    {
        Pipeline::Connecting
    }

    /// The state of the pipeline's life.
    pub fn state(&self) -> (s: PipelineState)
        ensures
            s == state_of(self@),
    {
        match self {
            Pipeline::Connecting => PipelineState::Connecting,
            Pipeline::Awaiting => PipelineState::Streaming,
            Pipeline::Sending { .. } => PipelineState::Streaming,
            Pipeline::Reconnecting { .. } => PipelineState::Reconnecting,
            Pipeline::Finalizing => PipelineState::Finalizing,
            Pipeline::Closed => PipelineState::Closed,
        }
    }

    /// The action whose outcome the pipeline waits for.
    pub fn pending(&self) -> (action: PipelineAction)
        ensures
            action@ == pending(self@),
    {
        match self {
            Pipeline::Connecting => PipelineAction::Connect,
            Pipeline::Awaiting => PipelineAction::AwaitFrame,
            Pipeline::Sending { frame, .. } => PipelineAction::Send(copy_of(frame)),
            Pipeline::Reconnecting { .. } => PipelineAction::Connect,
            Pipeline::Finalizing => PipelineAction::CloseConnection,
            Pipeline::Closed => PipelineAction::Exit,
        }
    }

    /// Takes the outcome of the pending action and moves on.
    ///
    /// Where `event` is an outcome of the pending action, the result is the
    /// following state and the action to carry out next. Otherwise the
    /// pipeline is handed back as it was, with no action.
    pub fn step(self, event: PipelineEvent) -> (moved: (Pipeline, Option<PipelineAction>))
        ensures
            match next(self@, event@) {
                Some(following) => {
                    &&& moved.0@ == following
                    &&& moved.1 matches Some(action)
                    &&& action@ == pending(following)
                },
                None => moved.0@ == self@ && moved.1 is None,
            },
    {
        match (self, event) {
            (Pipeline::Connecting, PipelineEvent::Connected) => (
                Pipeline::Awaiting,
                Some(PipelineAction::AwaitFrame),
            ),
            (Pipeline::Connecting, PipelineEvent::ConnectFailed) => (
                Pipeline::Closed,
                Some(PipelineAction::Exit),
            ),
            (Pipeline::Awaiting, PipelineEvent::Frame(samples)) => {
                let frame: Vec<u8> = resample_discord_to_bytes(samples);
                let bytes: Vec<u8> = copy_of(&frame);
                (Pipeline::Sending { frame, resend: false }, Some(PipelineAction::Send(bytes)))
            },
            (Pipeline::Awaiting, PipelineEvent::InputClosed) => (
                Pipeline::Finalizing,
                Some(PipelineAction::CloseConnection),
            ),
            (Pipeline::Sending { .. }, PipelineEvent::Sent) => (
                Pipeline::Awaiting,
                Some(PipelineAction::AwaitFrame),
            ),
            (Pipeline::Sending { frame, resend }, PipelineEvent::SendFailed) => {
                if resend {
                    (Pipeline::Closed, Some(PipelineAction::Exit))
                } else {
                    (Pipeline::Reconnecting { frame }, Some(PipelineAction::Connect))
                }
            },
            (Pipeline::Reconnecting { frame }, PipelineEvent::Connected) => {
                let bytes: Vec<u8> = copy_of(&frame);
                (Pipeline::Sending { frame, resend: true }, Some(PipelineAction::Send(bytes)))
            },
            (Pipeline::Reconnecting { .. }, PipelineEvent::ConnectFailed) => (
                Pipeline::Closed,
                Some(PipelineAction::Exit),
            ),
            (Pipeline::Finalizing, PipelineEvent::ConnectionClosed) => (
                Pipeline::Closed,
                Some(PipelineAction::Exit),
            ),
            (unchanged, _) => (unchanged, None),
        }
    }
}

/// One frame that has been written to the backend.
pub struct Delivery {
    /// The connection it was written to, counted from 1 in the order in
    /// which the pipeline's connections were established.
    pub connection: nat,
    /// The bytes written.
    pub frame: Seq<u8>,
}

/// A pipeline together with the record of what it has done so far.
pub struct Run {
    pub pipeline: PipelineView,
    /// How many connections have been established.
    pub connections: nat,
    /// The frames written, in the order of their writing.
    pub delivered: Seq<Delivery>,
}

/// The run of a pipeline at the start of its life.
pub open spec fn start_of_run() -> Run {
    Run { pipeline: PipelineView::Connecting, connections: 0, delivered: Seq::empty() }
}

/// The run after one more event. An event that is no outcome of the pending
/// action changes nothing.
pub open spec fn advance(run: Run, event: PipelineEventView) -> Run {
    match next(run.pipeline, event) {
        None => run,
        Some(following) => Run {
            pipeline: following,
            connections: if event is Connected {
                run.connections + 1
            } else {
                run.connections
            },
            delivered: match (run.pipeline, event) {
                (PipelineView::Sending { frame, .. }, PipelineEventView::Sent) => run.delivered.push(
                    Delivery { connection: run.connections, frame },
                ),
                _ => run.delivered,
            },
        },
    }
}

/// The run after a sequence of events, taken in order.
pub open spec fn run_all(run: Run, events: Seq<PipelineEventView>) -> Run
    decreases events.len(),
{
    if events.len() == 0 {
        run
    } else {
        advance(run_all(run, events.drop_last()), events.last())
    }
}

/// The events of a healthy connection while `frames` arrive: every frame is
/// taken from the queue and written with success.
pub open spec fn healthy_stream(frames: Seq<Seq<i16>>) -> Seq<PipelineEventView>
    decreases frames.len(),
{
    if frames.len() == 0 {
        Seq::empty()
    } else {
        healthy_stream(frames.drop_last()) + seq![
            PipelineEventView::Frame(frames.last()),
            PipelineEventView::Sent,
        ]
    }
}

/// The resampled form of each of `frames`, in order, as written to
/// `connection`.
pub open spec fn deliveries_of(connection: nat, frames: Seq<Seq<i16>>) -> Seq<Delivery> {
    Seq::new(frames.len(), |i: int| Delivery { connection, frame: resampled(frames[i]) })
}

/// Running over two sequences of events one after the other is running over
/// their concatenation.
pub proof fn lemma_run_all_concat(run: Run, first: Seq<PipelineEventView>, second: Seq<PipelineEventView>)
    ensures
        run_all(run, first + second) == run_all(run_all(run, first), second),
    decreases second.len(),
{
    if second.len() == 0 {
        assert(first + second =~= first);
    } else {
        assert((first + second).drop_last() =~= first + second.drop_last());
        lemma_run_all_concat(run, first, second.drop_last());
    }
}

/// Running over a single event is advancing by it.
pub proof fn lemma_run_all_single(run: Run, event: PipelineEventView)
    ensures
        run_all(run, seq![event]) == advance(run, event),
{
    assert(seq![event].drop_last() =~= Seq::<PipelineEventView>::empty());
    reveal_with_fuel(run_all, 2);
}

/// No cross-drop: while the connection is healthy, a streaming pipeline that
/// is given `frames` in order writes exactly their resampled forms, in the
/// same order, on the connection it has, and waits for more.
pub proof fn law_no_cross_drop(run: Run, frames: Seq<Seq<i16>>)
    requires
        run.pipeline == PipelineView::Awaiting,
    ensures
        run_all(run, healthy_stream(frames)) == (Run {
            pipeline: PipelineView::Awaiting,
            connections: run.connections,
            delivered: run.delivered + deliveries_of(run.connections, frames),
        }),
    decreases frames.len(),
{
    if frames.len() == 0 {
        assert(run.delivered + deliveries_of(run.connections, frames) =~= run.delivered);
    } else {
        let earlier = frames.drop_last();
        let taken = PipelineEventView::Frame(frames.last());
        law_no_cross_drop(run, earlier);
        let mid = run_all(run, healthy_stream(earlier));
        assert(healthy_stream(earlier) + seq![taken, PipelineEventView::Sent] =~= (healthy_stream(
            earlier,
        ) + seq![taken]) + seq![PipelineEventView::Sent]);
        lemma_run_all_concat(run, healthy_stream(earlier) + seq![taken], seq![PipelineEventView::Sent]);
        lemma_run_all_concat(run, healthy_stream(earlier), seq![taken]);
        lemma_run_all_single(mid, taken);
        lemma_run_all_single(advance(mid, taken), PipelineEventView::Sent);
        assert(run.delivered + deliveries_of(run.connections, frames) =~= (run.delivered
            + deliveries_of(run.connections, earlier)).push(
            Delivery { connection: run.connections, frame: resampled(frames.last()) },
        ));
    }
}

/// A pipeline that connects and then streams `frames` over a healthy
/// connection writes exactly one frame for each of them, in order.
pub proof fn law_fresh_pipeline_delivers_all(frames: Seq<Seq<i16>>)
    ensures
        run_all(start_of_run(), seq![PipelineEventView::Connected] + healthy_stream(frames)) == (Run {
            pipeline: PipelineView::Awaiting,
            connections: 1,
            delivered: deliveries_of(1, frames),
        }),
        deliveries_of(1, frames).len() == frames.len(),
{
    lemma_run_all_concat(start_of_run(), seq![PipelineEventView::Connected], healthy_stream(frames));
    lemma_run_all_single(start_of_run(), PipelineEventView::Connected);
    let connected = advance(start_of_run(), PipelineEventView::Connected);
    law_no_cross_drop(connected, frames);
    assert(connected.delivered + deliveries_of(1, frames) =~= deliveries_of(1, frames));
}

/// Reconnect resend: when writing a frame fails and the reconnect succeeds,
/// that frame is written exactly once on the new connection, and the frame
/// after it is written next.
pub proof fn law_reconnect_resends(run: Run, failed: Seq<i16>, following: Seq<i16>)
    requires
        run.pipeline == PipelineView::Awaiting,
    ensures
        run_all(
            run,
            seq![
                PipelineEventView::Frame(failed),
                PipelineEventView::SendFailed,
                PipelineEventView::Connected,
                PipelineEventView::Sent,
                PipelineEventView::Frame(following),
                PipelineEventView::Sent,
            ],
        ) == (Run {
            pipeline: PipelineView::Awaiting,
            connections: run.connections + 1,
            delivered: run.delivered + seq![
                Delivery { connection: run.connections + 1, frame: resampled(failed) },
                Delivery { connection: run.connections + 1, frame: resampled(following) },
            ],
        }),
{
    let e0 = PipelineEventView::Frame(failed);
    let e1 = PipelineEventView::SendFailed;
    let e2 = PipelineEventView::Connected;
    let e3 = PipelineEventView::Sent;
    let e4 = PipelineEventView::Frame(following);
    let all = seq![e0, e1, e2, e3, e4, e3];
    let r1 = advance(run, e0);
    let r2 = advance(r1, e1);
    let r3 = advance(r2, e2);
    let r4 = advance(r3, e3);
    let r5 = advance(r4, e4);
    let r6 = advance(r5, e3);
    assert(all =~= seq![e0] + seq![e1] + seq![e2] + seq![e3] + seq![e4] + seq![e3]);
    lemma_run_all_single(run, e0);
    lemma_run_all_concat(run, seq![e0], seq![e1]);
    lemma_run_all_single(r1, e1);
    lemma_run_all_concat(run, seq![e0] + seq![e1], seq![e2]);
    lemma_run_all_single(r2, e2);
    lemma_run_all_concat(run, seq![e0] + seq![e1] + seq![e2], seq![e3]);
    lemma_run_all_single(r3, e3);
    lemma_run_all_concat(run, seq![e0] + seq![e1] + seq![e2] + seq![e3], seq![e4]);
    lemma_run_all_single(r4, e4);
    lemma_run_all_concat(run, seq![e0] + seq![e1] + seq![e2] + seq![e3] + seq![e4], seq![e3]);
    lemma_run_all_single(r5, e3);
    assert(r6.delivered =~= run.delivered + seq![
        Delivery { connection: run.connections + 1, frame: resampled(failed) },
        Delivery { connection: run.connections + 1, frame: resampled(following) },
    ]);
}

/// When the write that follows a reconnect fails too, the pipeline is over
/// and the frame was never written.
pub proof fn law_second_failure_is_fatal(run: Run, frame: Seq<i16>)
    requires
        run.pipeline == PipelineView::Awaiting,
    ensures
        run_all(
            run,
            seq![
                PipelineEventView::Frame(frame),
                PipelineEventView::SendFailed,
                PipelineEventView::Connected,
                PipelineEventView::SendFailed,
            ],
        ) == (Run {
            pipeline: PipelineView::Closed,
            connections: run.connections + 1,
            delivered: run.delivered,
        }),
{
    let e0 = PipelineEventView::Frame(frame);
    let e1 = PipelineEventView::SendFailed;
    let e2 = PipelineEventView::Connected;
    let all = seq![e0, e1, e2, e1];
    let r1 = advance(run, e0);
    let r2 = advance(r1, e1);
    let r3 = advance(r2, e2);
    assert(all =~= seq![e0] + seq![e1] + seq![e2] + seq![e1]);
    lemma_run_all_single(run, e0);
    lemma_run_all_concat(run, seq![e0], seq![e1]);
    lemma_run_all_single(r1, e1);
    lemma_run_all_concat(run, seq![e0] + seq![e1], seq![e2]);
    lemma_run_all_single(r2, e2);
    lemma_run_all_concat(run, seq![e0] + seq![e1] + seq![e2], seq![e1]);
    lemma_run_all_single(r3, e1);
}

} // verus!
