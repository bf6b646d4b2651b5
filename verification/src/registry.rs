//! The speaker registry: who is known by synchronization source, under which
//! identity, and whether a pipeline is attached.
//!
//! Entries are created on first sighting of a source and are never removed.
//! The registry hands out pipeline handles itself, as consecutive numbers, so
//! that a handle names one pipeline for the life of the session.

use dashmap::DashMap;
use vstd::prelude::*;

verus! {

/// What the registry knows of one synchronization source.
#[derive(Clone, Debug, PartialEq, Eq)]
pub struct Speaker {
    /// The synchronization source that the entry is about.
    pub ssrc: u32,
    /// Display name; empty while unresolved.
    pub identity: String,
    /// Handle of the attached pipeline, if any.
    pub pipeline: Option<u64>,
}

/// Mathematical value of a [`Speaker`].
pub struct SpeakerView {
    pub ssrc: u32,
    pub identity: Seq<char>,
    pub pipeline: Option<u64>,
}

impl View for Speaker {
    type V = SpeakerView;

    open spec fn view(&self) -> SpeakerView {
        SpeakerView { ssrc: self.ssrc, identity: self.identity@, pipeline: self.pipeline }
    }
}

/// What the identity directory answers for a user reference.
#[derive(Clone, Debug, PartialEq, Eq)]
pub struct DirectoryEntry {
    pub name: String,
    pub is_bot: bool,
}

/// Mathematical value of a [`DirectoryEntry`].
pub struct DirectoryEntryView {
    pub name: Seq<char>,
    pub is_bot: bool,
}

impl View for DirectoryEntry {
    type V = DirectoryEntryView;

    open spec fn view(&self) -> DirectoryEntryView {
        DirectoryEntryView { name: self.name@, is_bot: self.is_bot }
    }
}

/// Mathematical value of the outcome of a directory lookup.
pub open spec fn lookup_view(lookup: Option<DirectoryEntry>) -> Option<DirectoryEntryView> {
    match lookup {
        Some(entry) => Some(entry@),
        None => None,
    }
}

/// The identity given to every non-human participant.
pub open spec fn bot_identity() -> Seq<char> {
    "Bot"@
}

/// The identity of a source that no speaking-state update has resolved yet.
pub open spec fn unresolved_identity() -> Seq<char> {
    Seq::empty()
}

/// The identity that a directory answer resolves to.
pub open spec fn resolved_identity(entry: DirectoryEntryView) -> Seq<char> {
    if entry.is_bot {
        bot_identity()
    } else {
        entry.name
    }
}

/// The entry of a source on first sighting.
pub open spec fn first_sighting(ssrc: u32) -> SpeakerView {
    SpeakerView { ssrc, identity: unresolved_identity(), pipeline: None }
}

/// Mathematical value of the registry.
pub struct RegistryView {
    /// The known sources.
    pub speakers: Map<u32, SpeakerView>,
    /// How many pipeline handles have been handed out; also the next handle.
    pub spawned: nat,
    /// The text channel that transcripts of this session belong to.
    pub channel: u64,
}

impl RegistryView {
    /// The registry of a session that has seen nothing yet.
    pub open spec fn initial(channel: u64) -> RegistryView {
        RegistryView { speakers: Map::empty(), spawned: 0, channel }
    }

    /// The entry of `ssrc`; that of a first sighting when the source is unknown.
    pub open spec fn entry(self, ssrc: u32) -> SpeakerView {
        if self.speakers.contains_key(ssrc) {
            self.speakers[ssrc]
        } else {
            first_sighting(ssrc)
        }
    }

    /// The identity under which `ssrc` is known.
    pub open spec fn identity(self, ssrc: u32) -> Seq<char> {
        self.entry(ssrc).identity
    }

    /// The pipeline attached to `ssrc`, if any.
    pub open spec fn pipeline(self, ssrc: u32) -> Option<u64> {
        self.entry(ssrc).pipeline
    }

    /// The registry with `ssrc` known under `identity` and with `pipeline`.
    pub open spec fn put(self, ssrc: u32, identity: Seq<char>, pipeline: Option<u64>) -> RegistryView {
        RegistryView {
            speakers: self.speakers.insert(ssrc, SpeakerView { ssrc, identity, pipeline }),
            spawned: self.spawned,
            channel: self.channel,
        }
    }

    /// Look up or insert: an unknown source gets the entry of a first sighting.
    pub open spec fn ensured(self, ssrc: u32) -> RegistryView {
        if self.speakers.contains_key(ssrc) {
            self
        } else {
            self.put(ssrc, unresolved_identity(), None)
        }
    }

    /// A speaking-state update: a directory answer sets the identity and keeps
    /// the pipeline; a failed lookup changes nothing.
    pub open spec fn resolved(self, ssrc: u32, lookup: Option<DirectoryEntryView>) -> RegistryView {
        match lookup {
            Some(entry) => self.put(ssrc, resolved_identity(entry), self.pipeline(ssrc)),
            None => self,
        }
    }

    /// The pipeline of `ssrc` detached; its entry, if there is one, stays.
    pub open spec fn cleared(self, ssrc: u32) -> RegistryView {
        if self.speakers.contains_key(ssrc) {
            self.put(ssrc, self.identity(ssrc), None)
        } else {
            self
        }
    }

    /// The handle that the next pipeline gets.
    pub open spec fn fresh_handle(self) -> u64 {
        self.spawned as u64
    }

    /// A fresh pipeline attached to `ssrc` in place of whatever was attached.
    pub open spec fn attached(self, ssrc: u32) -> RegistryView {
        RegistryView {
            speakers: self.speakers.insert(
                ssrc,
                SpeakerView {
                    ssrc,
                    identity: self.identity(ssrc),
                    pipeline: Some(self.fresh_handle()),
                },
            ),
            spawned: self.spawned + 1,
            channel: self.channel,
        }
    }

    /// Every entry is about the source it is stored under, every attached
    /// handle has been handed out, and no handle is attached to two sources.
    pub open spec fn inv(self) -> bool {
        &&& self.spawned <= u64::MAX
        &&& forall|s: u32| self.speakers.contains_key(s) ==> (#[trigger] self.speakers[s]).ssrc == s
        &&& forall|s: u32|
            self.speakers.contains_key(s) ==> (#[trigger] self.speakers[s].pipeline matches Some(p)
                ==> p < self.spawned)
        &&& forall|s: u32, t: u32|
            self.speakers.contains_key(s) && self.speakers.contains_key(t) && s != t
                && #[trigger] self.speakers[s].pipeline is Some
                ==> self.speakers[s].pipeline != #[trigger] self.speakers[t].pipeline
    }
}

/// `dashmap::DashMap`, made known as a type; nothing is said of what a value
/// of it is made of.
#[verifier::external_type_specification]
#[verifier::external_body]
#[verifier::reject_recursive_types(K)]
#[verifier::reject_recursive_types(V)]
#[verifier::reject_recursive_types(S)]
pub struct ExDashMap<K, V, S>(DashMap<K, V, S>);

/// The entries held by a concurrent speaker map, by synchronization source.
pub uninterp spec fn held(table: DashMap<u32, Speaker>) -> Map<u32, SpeakerView>;

/// The map without entries.
pub open spec fn no_speakers() -> Map<u32, SpeakerView> {
    Map::empty()
}

/// `DashMap::new`: the fresh map holds no entry.
#[verifier::external_body]
fn table_new() -> (table: DashMap<u32, Speaker>)
    ensures
        held(table) == no_speakers(),
{
    DashMap::new()
}

/// `DashMap::get`: a copy of the entry stored under `ssrc`, or `None` when the
/// map holds no such key.
#[verifier::external_body]
fn table_get(table: &DashMap<u32, Speaker>, ssrc: u32) -> (found: Option<Speaker>)
    ensures
        found is Some <==> held(*table).contains_key(ssrc),
        found matches Some(speaker) ==> speaker@ == held(*table)[ssrc],
{
    table.get(&ssrc).map(|entry| entry.value().clone())
}

/// `DashMap::insert`: afterwards the map holds `speaker` under `ssrc`, every
/// other entry is as before, and the entry replaced, if any, is returned.
#[verifier::external_body]
fn table_insert(table: &mut DashMap<u32, Speaker>, ssrc: u32, speaker: Speaker) -> (replaced: Option<Speaker>)
    ensures
        held(*final(table)) == held(*old(table)).insert(ssrc, speaker@),
        replaced is Some <==> held(*old(table)).contains_key(ssrc),
        replaced matches Some(previous) ==> previous@ == held(*old(table))[ssrc],
{
    table.insert(ssrc, speaker)
}

/// The receiver of one voice session: its speaker registry, the text channel
/// its transcripts belong to, and the count of pipelines it has asked for.
pub struct Reciever {
    known_ssrcs: DashMap<u32, Speaker>,
    default_channel: u64,
    next_pipeline: u64,
}

impl View for Reciever {
    type V = RegistryView;

    closed spec fn view(&self) -> RegistryView {
        RegistryView {
            speakers: held(self.known_ssrcs),
            spawned: self.next_pipeline as nat,
            channel: self.default_channel,
        }
    }
}

impl Reciever {
    /// Well-formedness: the registry's invariant holds.
    pub open spec fn wf(&self) -> bool {
        self@.inv()
    }

    /// The receiver of a session bound to `channel`, knowing no source.
    pub fn new(channel: u64) -> (receiver: Self)
        ensures
            receiver@ == RegistryView::initial(channel),
            receiver.wf(),
    {
        Reciever { known_ssrcs: table_new(), default_channel: channel, next_pipeline: 0 }
    }

    /// The text channel of the session.
    pub fn default_channel(&self) -> (channel: u64)
        ensures
            channel == self@.channel,
    {
        self.default_channel
    }

    /// The entry of `ssrc`, if the source is known.
    pub fn speaker(&self, ssrc: u32) -> (found: Option<Speaker>)
        ensures
            found is Some <==> self@.speakers.contains_key(ssrc),
            found matches Some(speaker) ==> speaker@ == self@.speakers[ssrc],
    {
        table_get(&self.known_ssrcs, ssrc)
    }

    /// How many more pipeline handles can be handed out.
    pub fn handles_left(&self) -> (left: u64)
        ensures
            left == u64::MAX - self@.spawned,
    {
        u64::MAX - self.next_pipeline
    }

    /// Looks up the entry of `ssrc`, inserting that of a first sighting when
    /// the source is unknown; an entry already present is never replaced.
    pub fn get_or_create(&mut self, ssrc: u32) -> (speaker: Speaker)
        requires
            old(self).wf(),
        ensures
            final(self)@ == old(self)@.ensured(ssrc),
            speaker@ == old(self)@.entry(ssrc),
            final(self).wf(),
    {
        match table_get(&self.known_ssrcs, ssrc) {
            Some(speaker) => speaker,
            None => {
                table_insert(
                    &mut self.known_ssrcs,
                    ssrc,
                    Speaker { ssrc, identity: String::new(), pipeline: None },
                );
                Speaker { ssrc, identity: String::new(), pipeline: None }
            },
        }
    }

    /// Records the outcome of a speaking-state update for `ssrc`.
    ///
    /// A directory answer sets the identity of the source, creating its entry
    /// if need be, and leaves its pipeline alone. A failed lookup (`None`)
    /// leaves the registry as it was.
    pub fn resolve_identity(&mut self, ssrc: u32, lookup: Option<DirectoryEntry>)
        requires
            old(self).wf(),
        ensures
            final(self)@ == old(self)@.resolved(ssrc, lookup_view(lookup)),
            final(self).wf(),
    {
        match lookup {
            Some(entry) => {
                let pipeline: Option<u64> = match table_get(&self.known_ssrcs, ssrc) {
                    Some(known) => known.pipeline,
                    None => None,
                };
                let identity: String = if entry.is_bot {
                    String::from_str("Bot")
                } else {
                    entry.name
                };
                table_insert(&mut self.known_ssrcs, ssrc, Speaker { ssrc, identity, pipeline });
            },
            None => {},
        }
    }

    /// Detaches the pipeline of `ssrc`; the entry itself stays.
    pub fn clear_pipeline(&mut self, ssrc: u32)
        requires
            old(self).wf(),
        ensures
            final(self)@ == old(self)@.cleared(ssrc),
            final(self).wf(),
    {
        match table_get(&self.known_ssrcs, ssrc) {
            Some(known) => {
                table_insert(
                    &mut self.known_ssrcs,
                    ssrc,
                    Speaker { ssrc, identity: known.identity, pipeline: None },
                );
            },
            None => {},
        }
    }

    /// Attaches a fresh pipeline handle to `ssrc`, in place of whatever was
    /// attached, and returns it.
    pub fn attach_pipeline(&mut self, ssrc: u32) -> (handle: u64)
        requires
            old(self).wf(),
            old(self)@.spawned < u64::MAX,
        ensures
            final(self)@ == old(self)@.attached(ssrc),
            handle == old(self)@.fresh_handle(),
            final(self).wf(),
    {
        let identity: String = match table_get(&self.known_ssrcs, ssrc) {
            Some(known) => known.identity,
            None => String::new(),
        };
        let handle: u64 = self.next_pipeline;
        table_insert(
            &mut self.known_ssrcs,
            ssrc,
            Speaker { ssrc, identity, pipeline: Some(handle) },
        );
        self.next_pipeline = handle + 1;
        handle
    }
}

} // verus!
