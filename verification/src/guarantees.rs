//! What holds of the registry over a whole session, whatever events arrive.

use crate::dispatch::{
    Attempt, CommandView, VoiceEventView, VoiceTickView, after_event, after_events,
    after_frame, after_silence, after_speaking, after_tick, frame_commands, resolves,
    silence_commands, silent_commands, spawn_demand, speaking_commands,
};
use crate::registry::{DirectoryEntryView, RegistryView, resolved_identity, unresolved_identity};
use vstd::prelude::*;

verus! {

/// The pipeline handles that a run of events can ask for, at most.
pub open spec fn total_spawn_demand(events: Seq<VoiceEventView>) -> nat
    decreases events.len(),
{
    if events.len() == 0 {
        0
    } else {
        total_spawn_demand(events.drop_last()) + spawn_demand(events.last())
    }
}

/// Neither audio nor silence changes under which identity a source is known.
pub proof fn lemma_tick_keeps_identity(r: RegistryView, tick: VoiceTickView, ssrc: u32)
    ensures
        after_tick(r, tick).identity(ssrc) == r.identity(ssrc),
{
    lemma_speaking_keeps_identity(r, tick.speaking, ssrc);
    lemma_silence_keeps_identity(after_speaking(r, tick.speaking), tick.silent, ssrc);
}

proof fn lemma_speaking_keeps_identity(r: RegistryView, speaking: Seq<(u32, Option<Seq<i16>>)>, ssrc: u32)
    ensures
        after_speaking(r, speaking).identity(ssrc) == r.identity(ssrc),
    decreases speaking.len(),
{
    if speaking.len() > 0 {
        lemma_speaking_keeps_identity(r, speaking.drop_last(), ssrc);
    }
}

proof fn lemma_silence_keeps_identity(r: RegistryView, silent: Seq<u32>, ssrc: u32)
    ensures
        after_silence(r, silent).identity(ssrc) == r.identity(ssrc),
    decreases silent.len(),
{
    if silent.len() > 0 {
        lemma_silence_keeps_identity(r, silent.drop_last(), ssrc);
    }
}

/// An event that does not resolve `ssrc` leaves its identity as it was.
pub proof fn lemma_event_keeps_identity(r: RegistryView, event: VoiceEventView, ssrc: u32)
    requires
        !resolves(event, ssrc),
    ensures
        after_event(r, event).identity(ssrc) == r.identity(ssrc),
{
    match event {
        VoiceEventView::VoiceTick(tick) => {
            lemma_tick_keeps_identity(r, tick, ssrc);
        },
        _ => {},
    }
}

/// Identity stability: once a speaking-state update has resolved `ssrc` to
/// `entry`, the source is known under that identity after any later events,
/// as long as none of them resolves the source anew.
pub proof fn law_identity_stable(
    r: RegistryView,
    ssrc: u32,
    entry: DirectoryEntryView,
    later: Seq<VoiceEventView>,
)
    requires
        forall|i: int| 0 <= i < later.len() ==> !resolves(#[trigger] later[i], ssrc),
    ensures
        after_events(r.resolved(ssrc, Some(entry)), later).identity(ssrc) == resolved_identity(entry),
    decreases later.len(),
{
    if later.len() > 0 {
        law_identity_stable(r, ssrc, entry, later.drop_last());
        lemma_event_keeps_identity(
            after_events(r.resolved(ssrc, Some(entry)), later.drop_last()),
            later.last(),
            ssrc,
        );
    }
}

/// A source that no event has resolved is known under the unresolved
/// identity, however much audio it has produced.
pub proof fn law_unresolved_until_resolved(channel: u64, ssrc: u32, events: Seq<VoiceEventView>)
    requires
        forall|i: int| 0 <= i < events.len() ==> !resolves(#[trigger] events[i], ssrc),
    ensures
        after_events(RegistryView::initial(channel), events).identity(ssrc) == unresolved_identity(),
    decreases events.len(),
{
    if events.len() > 0 {
        law_unresolved_until_resolved(channel, ssrc, events.drop_last());
        lemma_event_keeps_identity(
            after_events(RegistryView::initial(channel), events.drop_last()),
            events.last(),
            ssrc,
        );
    }
}

/// In a registry that meets its invariant no pipeline is attached to two
/// sources.
pub proof fn law_no_shared_pipeline(r: RegistryView, s: u32, t: u32)
    requires
        r.inv(),
        s != t,
        r.pipeline(s) is Some,
    ensures
        r.pipeline(s) != r.pipeline(t),
{
}

proof fn lemma_attached_keeps_inv(r: RegistryView, ssrc: u32)
    requires
        r.inv(),
        r.spawned < u64::MAX,
    ensures
        r.attached(ssrc).inv(),
        r.attached(ssrc).spawned == r.spawned + 1,
{
    let after = r.attached(ssrc);
    assert forall|s: u32| after.speakers.contains_key(s) implies (
    #[trigger] after.speakers[s].pipeline matches Some(p) ==> p < after.spawned) by {
        if s != ssrc {
            assert(r.speakers.contains_key(s));
        }
    }
    assert forall|s: u32, t: u32|
        after.speakers.contains_key(s) && after.speakers.contains_key(t) && s != t
            && #[trigger] after.speakers[s].pipeline is Some implies after.speakers[s].pipeline
        != #[trigger] after.speakers[t].pipeline by {
        if s != ssrc {
            assert(r.speakers.contains_key(s));
        }
        if t != ssrc {
            assert(r.speakers.contains_key(t));
        }
    }
}

proof fn lemma_speaking_keeps_inv(r: RegistryView, speaking: Seq<(u32, Option<Seq<i16>>)>)
    requires
        r.inv(),
        r.spawned + speaking.len() <= u64::MAX,
    ensures
        after_speaking(r, speaking).inv(),
        after_speaking(r, speaking).spawned <= r.spawned + speaking.len(),
    decreases speaking.len(),
{
    if speaking.len() > 0 {
        lemma_speaking_keeps_inv(r, speaking.drop_last());
        let before = after_speaking(r, speaking.drop_last());
        if speaking.last().1 is Some && before.pipeline(speaking.last().0) is None {
            lemma_attached_keeps_inv(before, speaking.last().0);
        }
    }
}

proof fn lemma_silence_keeps_inv(r: RegistryView, silent: Seq<u32>)
    requires
        r.inv(),
    ensures
        after_silence(r, silent).inv(),
        after_silence(r, silent).spawned == r.spawned,
    decreases silent.len(),
{
    if silent.len() > 0 {
        lemma_silence_keeps_inv(r, silent.drop_last());
    }
}

/// Every event keeps the registry's invariant, and hands out no more handles
/// than its demand.
pub proof fn lemma_event_keeps_inv(r: RegistryView, event: VoiceEventView)
    requires
        r.inv(),
        r.spawned + spawn_demand(event) <= u64::MAX,
    ensures
        after_event(r, event).inv(),
        after_event(r, event).spawned <= r.spawned + spawn_demand(event),
{
    match event {
        VoiceEventView::VoiceTick(tick) => {
            lemma_speaking_keeps_inv(r, tick.speaking);
            lemma_silence_keeps_inv(after_speaking(r, tick.speaking), tick.silent);
        },
        VoiceEventView::DeliveryFailed { ssrc, pipeline, attempt, frame } => {
            if r.pipeline(ssrc) == Some(pipeline) && attempt == Attempt::First {
                lemma_attached_keeps_inv(r, ssrc);
            }
        },
        _ => {},
    }
}

/// At most one pipeline: starting from a registry that meets its invariant,
/// after any run of events no handle is attached to two sources, as long as
/// the handles do not run out.
pub proof fn law_single_pipeline(r: RegistryView, events: Seq<VoiceEventView>)
    requires
        r.inv(),
        r.spawned + total_spawn_demand(events) <= u64::MAX,
    ensures
        after_events(r, events).inv(),
        after_events(r, events).spawned <= r.spawned + total_spawn_demand(events),
    decreases events.len(),
{
    if events.len() > 0 {
        law_single_pipeline(r, events.drop_last());
        lemma_event_keeps_inv(after_events(r, events.drop_last()), events.last());
    }
}

/// A usable frame is forwarded to exactly the pipeline that is attached to
/// its source afterwards, and a pipeline that had to be spawned for it is
/// spawned before the frame is forwarded.
pub proof fn law_frame_reaches_attached_pipeline(r: RegistryView, ssrc: u32, samples: Seq<i16>)
    ensures
        after_frame(r, ssrc, true).pipeline(ssrc) matches Some(pipeline) && frame_commands(
            r,
            ssrc,
            Some(samples),
        ).last() == (CommandView::Forward { ssrc, pipeline, attempt: Attempt::First, frame: samples }),
        r.pipeline(ssrc) is None ==> frame_commands(r, ssrc, Some(samples)) == seq![
            CommandView::Spawn { ssrc, pipeline: r.fresh_handle(), channel: r.channel },
            CommandView::Forward {
                ssrc,
                pipeline: r.fresh_handle(),
                attempt: Attempt::First,
                frame: samples,
            },
        ],
        r.pipeline(ssrc) is Some ==> frame_commands(r, ssrc, Some(samples)).len() == 1,
{
}

/// The speaking part of a source that alone produces audio: `frames`, each
/// usable, one after the other.
pub open spec fn frames_of(ssrc: u32, frames: Seq<Seq<i16>>) -> Seq<(u32, Option<Seq<i16>>)> {
    Seq::new(frames.len(), |i: int| (ssrc, Some(frames[i])))
}

/// One first-attempt forward to `pipeline` for each of `frames`, in order.
pub open spec fn forwards_of(ssrc: u32, pipeline: u64, frames: Seq<Seq<i16>>) -> Seq<CommandView> {
    Seq::new(
        frames.len(),
        |i: int| CommandView::Forward { ssrc, pipeline, attempt: Attempt::First, frame: frames[i] },
    )
}

/// The pipeline that frames of `ssrc` go to: the attached one, or else the
/// one that is spawned for the first of them.
pub open spec fn target_pipeline(r: RegistryView, ssrc: u32) -> u64 {
    match r.pipeline(ssrc) {
        Some(pipeline) => pipeline,
        None => r.fresh_handle(),
    }
}

/// The spawn that precedes the first forward where no pipeline is attached.
pub open spec fn spawn_if_absent(r: RegistryView, ssrc: u32) -> Seq<CommandView> {
    if r.pipeline(ssrc) is None {
        seq![CommandView::Spawn { ssrc, pipeline: r.fresh_handle(), channel: r.channel }]
    } else {
        Seq::empty()
    }
}

/// Frames of one source, handled one after the other, are all forwarded to
/// one pipeline, each exactly once and in their order; that pipeline is
/// spawned first where none was attached, and it stays attached.
pub proof fn law_frames_forwarded_in_order(r: RegistryView, ssrc: u32, frames: Seq<Seq<i16>>)
    requires
        frames.len() > 0,
    ensures
        speaking_commands(r, frames_of(ssrc, frames)) == spawn_if_absent(r, ssrc) + forwards_of(
            ssrc,
            target_pipeline(r, ssrc),
            frames,
        ),
        after_speaking(r, frames_of(ssrc, frames)).pipeline(ssrc) == Some(target_pipeline(r, ssrc)),
    decreases frames.len(),
{
    let items = frames_of(ssrc, frames);
    let target = target_pipeline(r, ssrc);
    assert(items.drop_last() =~= frames_of(ssrc, frames.drop_last()));
    if frames.len() == 1 {
        assert(speaking_commands(r, items.drop_last()) =~= Seq::<CommandView>::empty());
        assert(after_speaking(r, items.drop_last()) == r);
        assert(speaking_commands(r, items) =~= spawn_if_absent(r, ssrc) + forwards_of(
            ssrc,
            target,
            frames,
        ));
    } else {
        law_frames_forwarded_in_order(r, ssrc, frames.drop_last());
        assert(speaking_commands(r, items) =~= spawn_if_absent(r, ssrc) + forwards_of(
            ssrc,
            target,
            frames,
        ));
    }
}

/// Silence teardown: after a tick no pipeline is attached to any source that
/// the tick reported silent.
pub proof fn law_silent_sources_cleared(r: RegistryView, tick: VoiceTickView, i: int)
    requires
        0 <= i < tick.silent.len(),
    ensures
        after_tick(r, tick).pipeline(tick.silent[i]) is None,
{
    lemma_silenced_is_cleared(after_speaking(r, tick.speaking), tick.silent, i);
}

proof fn lemma_silenced_is_cleared(r: RegistryView, silent: Seq<u32>, i: int)
    requires
        0 <= i < silent.len(),
    ensures
        after_silence(r, silent).pipeline(silent[i]) is None,
    decreases silent.len(),
{
    if i < silent.len() - 1 {
        lemma_silenced_is_cleared(r, silent.drop_last(), i);
    }
}

/// Silence teardown: the pipeline that is attached to a source when its
/// silence is handled is told to finalize.
pub proof fn law_silence_finalizes(r: RegistryView, silent: Seq<u32>, i: int, pipeline: u64)
    requires
        0 <= i < silent.len(),
        after_silence(r, silent.take(i)).pipeline(silent[i]) == Some(pipeline),
    ensures
        silent_commands(r, silent).contains(CommandView::Finalize { ssrc: silent[i], pipeline }),
    decreases silent.len(),
{
    let wanted = CommandView::Finalize { ssrc: silent[i], pipeline };
    let head = silent_commands(r, silent.drop_last());
    let tail = silence_commands(after_silence(r, silent.drop_last()), silent.last());
    if i < silent.len() - 1 {
        assert(silent.drop_last().take(i) =~= silent.take(i));
        law_silence_finalizes(r, silent.drop_last(), i, pipeline);
        let k = choose|k: int| 0 <= k < head.len() && head[k] == wanted;
        assert((head + tail)[k] == wanted);
    } else {
        assert(silent.take(i) =~= silent.drop_last());
        assert(tail[0] == wanted);
        assert((head + tail)[head.len() as int] == wanted);
    }
}

/// Whether an event is about `ssrc`: an update or a failure report for it,
/// or a tick in which it speaks or is silent.
pub open spec fn concerns(event: VoiceEventView, ssrc: u32) -> bool {
    match event {
        VoiceEventView::DriverConnect => false,
        VoiceEventView::SpeakingStateUpdate { ssrc: source, .. } => source == ssrc,
        VoiceEventView::DeliveryFailed { ssrc: source, .. } => source == ssrc,
        VoiceEventView::VoiceTick(tick) => {
            ||| exists|i: int| 0 <= i < tick.speaking.len() && (#[trigger] tick.speaking[i]).0 == ssrc
            ||| exists|i: int| 0 <= i < tick.silent.len() && #[trigger] tick.silent[i] == ssrc
        },
    }
}

proof fn lemma_speaking_leaves_others(r: RegistryView, speaking: Seq<(u32, Option<Seq<i16>>)>, ssrc: u32)
    requires
        forall|i: int| 0 <= i < speaking.len() ==> (#[trigger] speaking[i]).0 != ssrc,
    ensures
        after_speaking(r, speaking).speakers.contains_key(ssrc) == r.speakers.contains_key(ssrc),
        after_speaking(r, speaking).entry(ssrc) == r.entry(ssrc),
    decreases speaking.len(),
{
    if speaking.len() > 0 {
        assert forall|i: int| 0 <= i < speaking.drop_last().len() implies (
        #[trigger] speaking.drop_last()[i]).0 != ssrc by {
            assert(speaking.drop_last()[i] == speaking[i]);
        }
        lemma_speaking_leaves_others(r, speaking.drop_last(), ssrc);
        assert(speaking.last() == speaking[speaking.len() - 1]);
    }
}

proof fn lemma_silence_leaves_others(r: RegistryView, silent: Seq<u32>, ssrc: u32)
    requires
        forall|i: int| 0 <= i < silent.len() ==> #[trigger] silent[i] != ssrc,
    ensures
        after_silence(r, silent).speakers.contains_key(ssrc) == r.speakers.contains_key(ssrc),
        after_silence(r, silent).entry(ssrc) == r.entry(ssrc),
    decreases silent.len(),
{
    if silent.len() > 0 {
        assert forall|i: int| 0 <= i < silent.drop_last().len() implies #[trigger] silent.drop_last()[i]
            != ssrc by {
            assert(silent.drop_last()[i] == silent[i]);
        }
        lemma_silence_leaves_others(r, silent.drop_last(), ssrc);
        assert(silent.last() == silent[silent.len() - 1]);
    }
}

/// Isolation: an event that is not about `ssrc` leaves what the registry
/// knows of it as it was; whatever happens to one speaker's pipeline touches
/// no other speaker.
pub proof fn law_event_leaves_others(r: RegistryView, event: VoiceEventView, ssrc: u32)
    requires
        !concerns(event, ssrc),
    ensures
        after_event(r, event).speakers.contains_key(ssrc) == r.speakers.contains_key(ssrc),
        after_event(r, event).entry(ssrc) == r.entry(ssrc),
{
    match event {
        VoiceEventView::VoiceTick(tick) => {
            lemma_speaking_leaves_others(r, tick.speaking, ssrc);
            lemma_silence_leaves_others(after_speaking(r, tick.speaking), tick.silent, ssrc);
        },
        _ => {},
    }
}

proof fn lemma_speaking_keeps_known(r: RegistryView, speaking: Seq<(u32, Option<Seq<i16>>)>, ssrc: u32)
    requires
        r.speakers.contains_key(ssrc),
    ensures
        after_speaking(r, speaking).speakers.contains_key(ssrc),
    decreases speaking.len(),
{
    if speaking.len() > 0 {
        lemma_speaking_keeps_known(r, speaking.drop_last(), ssrc);
    }
}

proof fn lemma_silence_keeps_known(r: RegistryView, silent: Seq<u32>, ssrc: u32)
    requires
        r.speakers.contains_key(ssrc),
    ensures
        after_silence(r, silent).speakers.contains_key(ssrc),
    decreases silent.len(),
{
    if silent.len() > 0 {
        lemma_silence_keeps_known(r, silent.drop_last(), ssrc);
    }
}

/// Entries are retained: a source that is known stays known, whatever events
/// follow.
pub proof fn law_sources_stay_known(r: RegistryView, events: Seq<VoiceEventView>, ssrc: u32)
    requires
        r.speakers.contains_key(ssrc),
    ensures
        after_events(r, events).speakers.contains_key(ssrc),
    decreases events.len(),
{
    if events.len() > 0 {
        law_sources_stay_known(r, events.drop_last(), ssrc);
        let before = after_events(r, events.drop_last());
        match events.last() {
            VoiceEventView::VoiceTick(tick) => {
                lemma_speaking_keeps_known(before, tick.speaking, ssrc);
                lemma_silence_keeps_known(after_speaking(before, tick.speaking), tick.silent, ssrc);
            },
            _ => {},
        }
    }
}

} // verus!
