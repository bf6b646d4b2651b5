//! The tick dispatcher: what the receiver decides on each event of the voice
//! transport.
//!
//! The receiver never performs outside work itself. For every event it
//! updates the registry and answers with the commands that the host has to
//! carry out, in order: spawn a pipeline, hand a frame to a pipeline's input
//! queue, close a pipeline's input queue. When handing over a frame fails,
//! the host reports that as an event of its own and gets the next commands.

use crate::registry::{DirectoryEntry, DirectoryEntryView, Reciever, RegistryView, lookup_view};
use vstd::prelude::*;

verus! {

/// Which attempt at handing over a frame a command or a report is about.
#[derive(Clone, Copy, Debug, PartialEq, Eq, Structural)]
pub enum Attempt {
    /// The first attempt, on the pipeline that was attached or just spawned.
    First,
    /// The one retry, on the pipeline spawned after the first attempt failed.
    Retry,
}

/// What one delivery cycle of the transport carries.
#[derive(Clone, Debug, PartialEq, Eq)]
pub struct VoiceTick {
    /// The sources that produced audio, each with its decoded frame, or with
    /// `None` where decoding was unavailable.
    pub speaking: Vec<(u32, Option<Vec<i16>>)>,
    /// The sources that went silent.
    pub silent: Vec<u32>,
}

/// An event that the host hands to the receiver.
#[derive(Clone, Debug, PartialEq, Eq)]
pub enum VoiceEvent {
    /// The voice driver has connected.
    DriverConnect,
    /// A speaking-state update for `ssrc`, with the directory's answer for the
    /// user it names, or `None` where it names none or the lookup failed.
    SpeakingStateUpdate { ssrc: u32, lookup: Option<DirectoryEntry> },
    /// One delivery cycle.
    VoiceTick(VoiceTick),
    /// The input queue of `pipeline` did not take `frame`.
    DeliveryFailed { ssrc: u32, pipeline: u64, attempt: Attempt, frame: Vec<i16> },
}

/// What the host is asked to do.
#[derive(Clone, Debug, PartialEq, Eq)]
pub enum Command {
    /// Start the pipeline `pipeline` for `ssrc`, bound to `channel`.
    Spawn { ssrc: u32, pipeline: u64, channel: u64 },
    /// Hand `frame` to the input queue of `pipeline` without blocking.
    Forward { ssrc: u32, pipeline: u64, attempt: Attempt, frame: Vec<i16> },
    /// Close the input queue of `pipeline`, so that it finalizes.
    Finalize { ssrc: u32, pipeline: u64 },
    /// Nothing to do for `ssrc`: its frame could not be decoded.
    DecodeUnavailable { ssrc: u32 },
    /// Nothing more to do for a frame of `ssrc`: it is given up.
    Dropped { ssrc: u32 },
}

/// Mathematical value of a [`Command`].
pub enum CommandView {
    Spawn { ssrc: u32, pipeline: u64, channel: u64 },
    Forward { ssrc: u32, pipeline: u64, attempt: Attempt, frame: Seq<i16> },
    Finalize { ssrc: u32, pipeline: u64 },
    DecodeUnavailable { ssrc: u32 },
    Dropped { ssrc: u32 },
}

impl View for Command {
    type V = CommandView;

    open spec fn view(&self) -> CommandView {
        match *self {
            Command::Spawn { ssrc, pipeline, channel } => CommandView::Spawn { ssrc, pipeline, channel },
            Command::Forward { ssrc, pipeline, attempt, frame } => CommandView::Forward {
                ssrc,
                pipeline,
                attempt,
                frame: frame@,
            },
            Command::Finalize { ssrc, pipeline } => CommandView::Finalize { ssrc, pipeline },
            Command::DecodeUnavailable { ssrc } => CommandView::DecodeUnavailable { ssrc },
            Command::Dropped { ssrc } => CommandView::Dropped { ssrc },
        }
    }
}

/// Mathematical value of a list of commands.
pub open spec fn commands_view(commands: Seq<Command>) -> Seq<CommandView> {
    commands.map_values(|c: Command| c@)
}

/// Mathematical value of a frame slot of a tick.
pub open spec fn frame_view(frame: Option<Vec<i16>>) -> Option<Seq<i16>> {
    match frame {
        Some(samples) => Some(samples@),
        None => None,
    }
}

/// Mathematical value of the speaking part of a tick.
pub open spec fn speaking_view(speaking: Seq<(u32, Option<Vec<i16>>)>) -> Seq<(u32, Option<Seq<i16>>)> {
    speaking.map_values(|item: (u32, Option<Vec<i16>>)| (item.0, frame_view(item.1)))
}

/// The registry after one speaking source has been handled: a usable frame
/// for a source without a pipeline attaches a fresh one; nothing else changes.
pub open spec fn after_frame(r: RegistryView, ssrc: u32, usable: bool) -> RegistryView {
    if usable && r.pipeline(ssrc) is None {
        r.attached(ssrc)
    } else {
        r
    }
}

/// The commands for one speaking source.
pub open spec fn frame_commands(r: RegistryView, ssrc: u32, frame: Option<Seq<i16>>) -> Seq<CommandView> {
    match frame {
        None => seq![CommandView::DecodeUnavailable { ssrc }],
        Some(samples) => match r.pipeline(ssrc) {
            Some(pipeline) => seq![
                CommandView::Forward { ssrc, pipeline, attempt: Attempt::First, frame: samples },
            ],
            None => seq![
                CommandView::Spawn { ssrc, pipeline: r.fresh_handle(), channel: r.channel },
                CommandView::Forward {
                    ssrc,
                    pipeline: r.fresh_handle(),
                    attempt: Attempt::First,
                    frame: samples,
                },
            ],
        },
    }
}

/// The commands for one silent source: its pipeline, if it has one, finalizes.
pub open spec fn silence_commands(r: RegistryView, ssrc: u32) -> Seq<CommandView> {
    match r.pipeline(ssrc) {
        Some(pipeline) => seq![CommandView::Finalize { ssrc, pipeline }],
        None => Seq::empty(),
    }
}

/// Whether a failed delivery is answered by a fresh pipeline: only the first
/// attempt is, and only while the failed pipeline is still the attached one.
pub open spec fn respawns(r: RegistryView, ssrc: u32, pipeline: u64, attempt: Attempt) -> bool {
    r.pipeline(ssrc) == Some(pipeline) && attempt == Attempt::First
}

/// The registry after a failed delivery has been reported.
pub open spec fn after_failure(r: RegistryView, ssrc: u32, pipeline: u64, attempt: Attempt) -> RegistryView {
    if r.pipeline(ssrc) == Some(pipeline) {
        match attempt {
            Attempt::First => r.attached(ssrc),
            Attempt::Retry => r.cleared(ssrc),
        }
    } else {
        r
    }
}

/// The commands that answer a failed delivery.
pub open spec fn failure_commands(
    r: RegistryView,
    ssrc: u32,
    pipeline: u64,
    attempt: Attempt,
    frame: Seq<i16>,
) -> Seq<CommandView> {
    if respawns(r, ssrc, pipeline, attempt) {
        seq![
            CommandView::Spawn { ssrc, pipeline: r.fresh_handle(), channel: r.channel },
            CommandView::Forward { ssrc, pipeline: r.fresh_handle(), attempt: Attempt::Retry, frame },
        ]
    } else {
        seq![CommandView::Dropped { ssrc }]
    }
}

/// Mathematical value of a [`VoiceTick`].
pub struct VoiceTickView {
    pub speaking: Seq<(u32, Option<Seq<i16>>)>,
    pub silent: Seq<u32>,
}

impl View for VoiceTick {
    type V = VoiceTickView;

    open spec fn view(&self) -> VoiceTickView {
        VoiceTickView { speaking: speaking_view(self.speaking@), silent: self.silent@ }
    }
}

/// The registry after the speaking sources of a tick, handled in order.
pub open spec fn after_speaking(r: RegistryView, speaking: Seq<(u32, Option<Seq<i16>>)>) -> RegistryView
    decreases speaking.len(),
{
    if speaking.len() == 0 {
        r
    } else {
        after_frame(
            after_speaking(r, speaking.drop_last()),
            speaking.last().0,
            speaking.last().1 is Some,
        )
    }
}

/// The commands for the speaking sources of a tick, in order.
pub open spec fn speaking_commands(r: RegistryView, speaking: Seq<(u32, Option<Seq<i16>>)>) -> Seq<
    CommandView,
>
    decreases speaking.len(),
{
    if speaking.len() == 0 {
        Seq::empty()
    } else {
        speaking_commands(r, speaking.drop_last()) + frame_commands(
            after_speaking(r, speaking.drop_last()),
            speaking.last().0,
            speaking.last().1,
        )
    }
}

/// The registry after the silent sources of a tick, handled in order.
pub open spec fn after_silence(r: RegistryView, silent: Seq<u32>) -> RegistryView
    decreases silent.len(),
{
    if silent.len() == 0 {
        r
    } else {
        after_silence(r, silent.drop_last()).cleared(silent.last())
    }
}

/// The commands for the silent sources of a tick, in order.
pub open spec fn silent_commands(r: RegistryView, silent: Seq<u32>) -> Seq<CommandView>
    decreases silent.len(),
{
    if silent.len() == 0 {
        Seq::empty()
    } else {
        silent_commands(r, silent.drop_last()) + silence_commands(
            after_silence(r, silent.drop_last()),
            silent.last(),
        )
    }
}

/// The registry after a whole tick: the speaking sources first, then the
/// silent ones.
pub open spec fn after_tick(r: RegistryView, tick: VoiceTickView) -> RegistryView {
    after_silence(after_speaking(r, tick.speaking), tick.silent)
}

/// The commands for a whole tick.
pub open spec fn tick_commands(r: RegistryView, tick: VoiceTickView) -> Seq<CommandView> {
    speaking_commands(r, tick.speaking) + silent_commands(
        after_speaking(r, tick.speaking),
        tick.silent,
    )
}

/// Mathematical value of a [`VoiceEvent`].
pub enum VoiceEventView {
    DriverConnect,
    SpeakingStateUpdate { ssrc: u32, lookup: Option<DirectoryEntryView> },
    VoiceTick(VoiceTickView),
    DeliveryFailed { ssrc: u32, pipeline: u64, attempt: Attempt, frame: Seq<i16> },
}

impl View for VoiceEvent {
    type V = VoiceEventView;

    open spec fn view(&self) -> VoiceEventView {
        match *self {
            VoiceEvent::DriverConnect => VoiceEventView::DriverConnect,
            VoiceEvent::SpeakingStateUpdate { ssrc, lookup } => VoiceEventView::SpeakingStateUpdate {
                ssrc,
                lookup: lookup_view(lookup),
            },
            VoiceEvent::VoiceTick(tick) => VoiceEventView::VoiceTick(tick@),
            VoiceEvent::DeliveryFailed { ssrc, pipeline, attempt, frame } => VoiceEventView::DeliveryFailed {
                ssrc,
                pipeline,
                attempt,
                frame: frame@,
            },
        }
    }
}

/// The registry after an event.
pub open spec fn after_event(r: RegistryView, event: VoiceEventView) -> RegistryView {
    match event {
        VoiceEventView::DriverConnect => r,
        VoiceEventView::SpeakingStateUpdate { ssrc, lookup } => r.resolved(ssrc, lookup),
        VoiceEventView::VoiceTick(tick) => after_tick(r, tick),
        VoiceEventView::DeliveryFailed { ssrc, pipeline, attempt, frame } => after_failure(
            r,
            ssrc,
            pipeline,
            attempt,
        ),
    }
}

/// The commands that answer an event.
pub open spec fn event_commands(r: RegistryView, event: VoiceEventView) -> Seq<CommandView> {
    match event {
        VoiceEventView::DriverConnect => Seq::empty(),
        VoiceEventView::SpeakingStateUpdate { ssrc, lookup } => Seq::empty(),
        VoiceEventView::VoiceTick(tick) => tick_commands(r, tick),
        VoiceEventView::DeliveryFailed { ssrc, pipeline, attempt, frame } => failure_commands(
            r,
            ssrc,
            pipeline,
            attempt,
            frame,
        ),
    }
}

/// An upper bound on the pipeline handles that an event can ask for.
pub open spec fn spawn_demand(event: VoiceEventView) -> nat {
    match event {
        VoiceEventView::VoiceTick(tick) => tick.speaking.len(),
        VoiceEventView::DeliveryFailed { .. } => 1,
        _ => 0,
    }
}

/// The registry after a run of events, handled in order.
pub open spec fn after_events(r: RegistryView, events: Seq<VoiceEventView>) -> RegistryView
    decreases events.len(),
{
    if events.len() == 0 {
        r
    } else {
        after_event(after_events(r, events.drop_last()), events.last())
    }
}

/// Whether an event resolves the identity of `ssrc`.
pub open spec fn resolves(event: VoiceEventView, ssrc: u32) -> bool {
    event matches VoiceEventView::SpeakingStateUpdate { ssrc: source, lookup: Some(_) } && source
        == ssrc
}

/// Handling speaking sources hands out at most one handle for each.
pub proof fn lemma_speaking_spawns_bounded(r: RegistryView, speaking: Seq<(u32, Option<Seq<i16>>)>)
    ensures
        r.spawned <= after_speaking(r, speaking).spawned <= r.spawned + speaking.len(),
    decreases speaking.len(),
{
    if speaking.len() > 0 {
        lemma_speaking_spawns_bounded(r, speaking.drop_last());
    }
}

impl Reciever {
    /// Handles one speaking source of a tick and appends its commands.
    fn frame_into(&mut self, ssrc: u32, frame: Option<Vec<i16>>, commands: &mut Vec<Command>)
        requires
            old(self).wf(),
            old(self)@.spawned < u64::MAX,
        ensures
            final(self)@ == after_frame(old(self)@, ssrc, frame is Some),
            commands_view(final(commands)@) == commands_view(old(commands)@) + frame_commands(
                old(self)@,
                ssrc,
                frame_view(frame),
            ),
            final(self).wf(),
    {
        let ghost before = commands_view(commands@);
        match frame {
            None => {
                commands.push(Command::DecodeUnavailable { ssrc });
            },
            Some(samples) => {
                let attached: Option<u64> = match self.speaker(ssrc) {
                    Some(known) => known.pipeline,
                    None => None,
                };
                let pipeline: u64 = match attached {
                    Some(pipeline) => pipeline,
                    None => {
                        let channel: u64 = self.default_channel();
                        let pipeline: u64 = self.attach_pipeline(ssrc);
                        commands.push(Command::Spawn { ssrc, pipeline, channel });
                        pipeline
                    },
                };
                commands.push(Command::Forward { ssrc, pipeline, attempt: Attempt::First, frame: samples });
            },
        }
        assert(commands_view(commands@) =~= before + frame_commands(
            old(self)@,
            ssrc,
            frame_view(frame),
        ));
    }

    /// Handles one silent source of a tick and appends its commands.
    fn silence_into(&mut self, ssrc: u32, commands: &mut Vec<Command>)
        requires
            old(self).wf(),
        ensures
            final(self)@ == old(self)@.cleared(ssrc),
            commands_view(final(commands)@) == commands_view(old(commands)@) + silence_commands(
                old(self)@,
                ssrc,
            ),
            final(self).wf(),
    {
        let ghost before = commands_view(commands@);
        let attached: Option<u64> = match self.speaker(ssrc) {
            Some(known) => known.pipeline,
            None => None,
        };
        match attached {
            Some(pipeline) => {
                commands.push(Command::Finalize { ssrc, pipeline });
            },
            None => {},
        }
        self.clear_pipeline(ssrc);
        assert(commands_view(commands@) =~= before + silence_commands(old(self)@, ssrc));
    }
    /// Handles one delivery cycle: every speaking source in order, then every
    /// silent source in order.
    pub fn dispatch_tick(&mut self, tick: VoiceTick) -> (commands: Vec<Command>)
        requires
            old(self).wf(),
            old(self)@.spawned + tick.speaking@.len() <= u64::MAX,
        ensures
            final(self)@ == after_tick(old(self)@, tick@),
            commands_view(commands@) == tick_commands(old(self)@, tick@),
            final(self).wf(),
    {
        let ghost start = self@;
        let ghost spoken = speaking_view(tick.speaking@);
        let ghost hushed = tick.silent@;
        let VoiceTick { speaking, silent } = tick;
        let mut commands: Vec<Command> = Vec::new();
        assert(commands_view(commands@) =~= speaking_commands(start, spoken.take(0)));
        for item in it: speaking.into_iter()
            invariant
                self.wf(),
                it.seq() == speaking@,
                spoken == speaking_view(speaking@),
                start.spawned + spoken.len() <= u64::MAX,
                self@ == after_speaking(start, spoken.take(it.index())),
                commands_view(commands@) == speaking_commands(start, spoken.take(it.index())),
        {
            proof {
                lemma_speaking_spawns_bounded(start, spoken.take(it.index()));
                assert(spoken.take(it.index() + 1).drop_last() =~= spoken.take(it.index()));
            }
            let (ssrc, frame) = item;
            self.frame_into(ssrc, frame, &mut commands);
        }
        assert(spoken.take(spoken.len() as int) =~= spoken);
        let ghost spoken_state = self@;
        let ghost spoken_commands = commands_view(commands@);
        let mut i: usize = 0;
        while i < silent.len()
            invariant
                self.wf(),
                i <= silent.len(),
                hushed == silent@,
                self@ == after_silence(spoken_state, hushed.take(i as int)),
                commands_view(commands@) == spoken_commands + silent_commands(
                    spoken_state,
                    hushed.take(i as int),
                ),
            decreases silent.len() - i,
        {
            proof {
                assert(hushed.take(i + 1).drop_last() =~= hushed.take(i as int));
            }
            self.silence_into(silent[i], &mut commands);
            i = i + 1;
        }
        assert(hushed.take(hushed.len() as int) =~= hushed);
        commands
    }
    /// Handles one speaking source: a usable frame goes to the pipeline of
    /// the source, which is spawned first where none is attached.
    pub fn dispatch_frame(&mut self, ssrc: u32, frame: Option<Vec<i16>>) -> (commands: Vec<Command>)
        requires
            old(self).wf(),
            old(self)@.spawned < u64::MAX,
        ensures
            final(self)@ == after_frame(old(self)@, ssrc, frame is Some),
            commands_view(commands@) == frame_commands(old(self)@, ssrc, frame_view(frame)),
            final(self).wf(),
    {
        let mut commands: Vec<Command> = Vec::new();
        assert(commands_view(commands@) =~= Seq::<CommandView>::empty());
        self.frame_into(ssrc, frame, &mut commands);
        commands
    }

    /// Handles one silent source: its pipeline, if it has one, is told to
    /// finalize, and the handle is detached at once.
    pub fn dispatch_silent(&mut self, ssrc: u32) -> (commands: Vec<Command>)
        requires
            old(self).wf(),
        ensures
            final(self)@ == old(self)@.cleared(ssrc),
            final(self)@.pipeline(ssrc) is None,
            commands_view(commands@) == silence_commands(old(self)@, ssrc),
            final(self).wf(),
    {
        let mut commands: Vec<Command> = Vec::new();
        assert(commands_view(commands@) =~= Seq::<CommandView>::empty());
        self.silence_into(ssrc, &mut commands);
        commands
    }

    /// Handles the report that the input queue of `pipeline` did not take
    /// `frame`.
    ///
    /// After a first attempt on the pipeline that is still attached to
    /// `ssrc`, a fresh pipeline replaces it and the frame is forwarded once
    /// more. After the retry the handle is detached and the frame is given
    /// up. A report about a pipeline that is no longer attached changes
    /// nothing, and the frame is given up.
    pub fn delivery_failed(
        &mut self,
        ssrc: u32,
        pipeline: u64,
        attempt: Attempt,
        frame: Vec<i16>,
    ) -> (commands: Vec<Command>)
        requires
            old(self).wf(),
            old(self)@.spawned < u64::MAX,
        ensures
            final(self)@ == after_failure(old(self)@, ssrc, pipeline, attempt),
            commands_view(commands@) == failure_commands(old(self)@, ssrc, pipeline, attempt, frame@),
            final(self).wf(),
    {
        let mut commands: Vec<Command> = Vec::new();
        let attached: Option<u64> = match self.speaker(ssrc) {
            Some(known) => known.pipeline,
            None => None,
        };
        let current: bool = match attached {
            Some(handle) => handle == pipeline,
            None => false,
        };
        if current {
            match attempt {
                Attempt::First => {
                    let channel: u64 = self.default_channel();
                    let fresh: u64 = self.attach_pipeline(ssrc);
                    commands.push(Command::Spawn { ssrc, pipeline: fresh, channel });
                    commands.push(
                        Command::Forward { ssrc, pipeline: fresh, attempt: Attempt::Retry, frame },
                    );
                },
                Attempt::Retry => {
                    self.clear_pipeline(ssrc);
                    commands.push(Command::Dropped { ssrc });
                },
            }
        } else {
            commands.push(Command::Dropped { ssrc });
        }
        assert(commands_view(commands@) =~= failure_commands(
            old(self)@,
            ssrc,
            pipeline,
            attempt,
            frame@,
        ));
        commands
    }

    /// Whether the registry can still hand out as many pipeline handles as
    /// `event` may ask for.
    pub fn has_handles_for(&self, event: &VoiceEvent) -> (enough: bool)
        ensures
            enough == (self@.spawned + spawn_demand(event@) <= u64::MAX),
    {
        let left: u64 = self.handles_left();
        match event {
            VoiceEvent::VoiceTick(tick) => tick.speaking.len() as u64 <= left,
            VoiceEvent::DeliveryFailed { .. } => 1 <= left,
            _ => true,
        }
    }

    /// Handles one event of the voice transport and answers with the
    /// commands for the host, in the order in which they are to be carried
    /// out.
    pub fn act(&mut self, event: VoiceEvent) -> (commands: Vec<Command>)
        requires
            old(self).wf(),
            old(self)@.spawned + spawn_demand(event@) <= u64::MAX,
        ensures
            final(self)@ == after_event(old(self)@, event@),
            commands_view(commands@) == event_commands(old(self)@, event@),
            final(self).wf(),
    {
        match event {
            VoiceEvent::DriverConnect => {
                let commands: Vec<Command> = Vec::new();
                assert(commands_view(commands@) =~= Seq::<CommandView>::empty());
                commands
            },
            VoiceEvent::SpeakingStateUpdate { ssrc, lookup } => {
                self.resolve_identity(ssrc, lookup);
                let commands: Vec<Command> = Vec::new();
                assert(commands_view(commands@) =~= Seq::<CommandView>::empty());
                commands
            },
            VoiceEvent::VoiceTick(tick) => self.dispatch_tick(tick),
            VoiceEvent::DeliveryFailed { ssrc, pipeline, attempt, frame } => self.delivery_failed(
                ssrc,
                pipeline,
                attempt,
                frame,
            ),
        }
    }
}

} // verus!
