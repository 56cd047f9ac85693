use vstd::prelude::*;

use crate::errors::EngineError;
use crate::lock::LockManager;
use crate::resource::{Chunk, Layer, Notify, ResourceId, SequenceInfo, TimestampRange, TopicInfo};
use crate::resource::str_eq;

verus! {

/// A valid sequence name: non-empty and free of the locator separator.
pub open spec fn valid_sequence_name(s: Seq<char>) -> bool {
    s.len() > 0 && forall|i: int| 0 <= i < s.len() ==> s[i] != '/'
}

/// A valid topic path: non-empty and neither starting nor ending with the
/// locator separator (interior separators introduce subtopics).
pub open spec fn valid_topic_path(s: Seq<char>) -> bool {
    s.len() > 0 && s[0] != '/' && s[s.len() - 1] != '/'
}

/// The fully-qualified name of a topic under its owning sequence.
pub open spec fn topic_full_name(sequence: Seq<char>, path: Seq<char>) -> Seq<char> {
    sequence + "/"@ + path
}

/// Checks a sequence name for emptiness and stray separators.
pub fn check_sequence_name(s: &str) -> (r: bool)
    ensures
        r == valid_sequence_name(s@),
{
    let len = s.unicode_len();
    if len == 0 {
        return false;
    }
    let mut i: usize = 0;
    while i < len
        invariant
            len == s@.len(),
            i <= len,
            forall|j: int| 0 <= j < i ==> s@[j] != '/',
        decreases len - i,
    {
        if s.get_char(i) == '/' {
            return false;
        }
        i += 1;
    }
    true
}

/// Checks a topic path for emptiness and leading or trailing separators.
pub fn check_topic_path(s: &str) -> (r: bool)
    ensures
        r == valid_topic_path(s@),
{
    let len = s.unicode_len();
    if len == 0 {
        return false;
    }
    s.get_char(0) != '/' && s.get_char(len - 1) != '/'
}

/// The metadata record of one live sequence.
pub struct SequenceRecord {
    /// The identifier assigned at creation.
    pub id: ResourceId,
    /// The unique sequence name.
    pub name: String,
    /// Opaque user metadata, as key-value pairs.
    pub metadata: Vec<(String, String)>,
    /// Creation timestamp, in the system-wide integer unit.
    pub created_at: i64,
    /// Total accounted bytes, its own system files included.
    pub total_bytes: usize,
}

/// The metadata and chunk accounting of one live topic.
pub struct TopicRecord {
    /// The identifier assigned at creation.
    pub id: ResourceId,
    /// The fully-qualified name `sequence/topic_path`.
    pub name: String,
    /// Back-reference, by name only, to the owning sequence.
    pub sequence_name: String,
    /// Tag of the serialization format of the stored payloads.
    pub serialization_format: String,
    /// Tag classifying the channel's semantic kind.
    pub ontology_tag: String,
    /// Opaque user metadata, as key-value pairs.
    pub metadata: Vec<(String, String)>,
    /// Creation timestamp, in the system-wide integer unit.
    pub created_at: i64,
    /// The committed chunks, in commit order.
    pub chunks: Vec<Chunk>,
    /// Total payload bytes; always the sum of the committed chunk sizes.
    pub total_bytes: usize,
}

/// The sum of the payload sizes of a run of chunks.
pub open spec fn chunks_size(s: Seq<Chunk>) -> nat
    decreases s.len(),
{
    if s.len() == 0 {
        0
    } else {
        chunks_size(s.drop_last()) + s.last().data@.len()
    }
}

/// Every chunk in the run has an ordered span.
pub open spec fn all_spans_wf(s: Seq<Chunk>) -> bool {
    forall|k: int| 0 <= k < s.len() ==> (#[trigger] s[k]).wf()
}

proof fn lemma_chunks_size_concat(a: Seq<Chunk>, b: Seq<Chunk>)
    ensures
        chunks_size(a + b) == chunks_size(a) + chunks_size(b),
    decreases b.len(),
{
    if b.len() == 0 {
        assert(a + b =~= a);
    } else {
        assert((a + b).drop_last() =~= a + b.drop_last());
        lemma_chunks_size_concat(a, b.drop_last());
        assert((a + b).last() == b.last());
    }
}

proof fn lemma_chunks_size_prefix(s: Seq<Chunk>, k: int)
    requires
        0 <= k <= s.len(),
    ensures
        chunks_size(s.take(k)) <= chunks_size(s),
    decreases s.len() - k,
{
    if k == s.len() {
        assert(s.take(k) =~= s);
    } else {
        assert(s.take(k + 1).drop_last() =~= s.take(k));
        assert(s.take(k + 1).last() == s[k]);
        assert(chunks_size(s.take(k + 1)) == chunks_size(s.take(k)) + s[k].data@.len());
        lemma_chunks_size_prefix(s, k + 1);
    }
}

/// The plain view of a chunk: its span and its payload bytes.
pub open spec fn chunk_view(c: Chunk) -> (TimestampRange, Seq<u8>) {
    (c.span, c.data@)
}

/// Whether a chunk span is selected by an optional requested range; the
/// absence of a range selects the entire topic.
pub open spec fn span_selected(span: TimestampRange, range: Option<TimestampRange>) -> bool {
    match range {
        None => true,
        Some(q) => q.spec_intersects(span),
    }
}

/// The chunks a range selects, in commit order, as plain views.
pub open spec fn selected_views(s: Seq<Chunk>, range: Option<TimestampRange>) -> Seq<
    (TimestampRange, Seq<u8>),
>
    decreases s.len(),
{
    if s.len() == 0 {
        Seq::empty()
    } else if span_selected(s.last().span, range) {
        selected_views(s.drop_last(), range).push(chunk_view(s.last()))
    } else {
        selected_views(s.drop_last(), range)
    }
}

impl TopicRecord {
    /// Accounting never diverges from the stored chunks: the byte total is
    /// the sum of the committed chunk sizes, and every span is ordered.
    pub open spec fn wf(self) -> bool {
        &&& self.total_bytes == chunks_size(self.chunks@)
        &&& forall|k: int| 0 <= k < self.chunks@.len() ==> (#[trigger] self.chunks@[k]).wf()
    }
}

/// The engine's whole state: live sequences and topics with their
/// accounting, the notification log, the layer catalog, the lock table and
/// the identifier counter.
pub struct Engine {
    /// The live sequences, in creation order.
    pub sequences: Vec<SequenceRecord>,
    /// The live topics, in creation order.
    pub topics: Vec<TopicRecord>,
    /// The append-only notification log.
    pub notifies: Vec<Notify>,
    /// The layer catalog.
    pub layers: Vec<Layer>,
    /// The exclusive-access lock table, keyed by resource name.
    pub locks: LockManager,
    /// The next identifier to assign; already-assigned ones lie below it.
    pub next_id: u128,
}

/// In every consistent engine state, the assigned resource keys are
/// pairwise distinct across sequences and topics together, and none is
/// the nil or the all-ones identifier: creating a sequence and then
/// topics under it can only yield distinct, non-nil, non-max keys.
pub proof fn lemma_resource_keys_distinct(e: Engine)
    requires
        e.wf(),
    ensures
        forall|i: int, j: int|
            0 <= i < j < e.sequences@.len() ==> e.sequences@[i].id != e.sequences@[j].id,
        forall|i: int, j: int|
            0 <= i < j < e.topics@.len() ==> e.topics@[i].id != e.topics@[j].id,
        forall|i: int, j: int|
            0 <= i < e.sequences@.len() && 0 <= j < e.topics@.len() ==> (
            #[trigger] e.sequences@[i]).id != (#[trigger] e.topics@[j]).id,
        forall|i: int| 0 <= i < e.sequences@.len() ==> (#[trigger] e.sequences@[i]).id.wf(),
        forall|i: int| 0 <= i < e.topics@.len() ==> (#[trigger] e.topics@[i]).id.wf(),
{
}

/// Whether some record in the run bears this sequence name.
pub open spec fn seqs_has(s: Seq<SequenceRecord>, name: Seq<char>) -> bool {
    exists|i: int| 0 <= i < s.len() && s[i].name@ == name
}

/// Whether some record in the run bears this fully-qualified topic name.
pub open spec fn topics_has(s: Seq<TopicRecord>, name: Seq<char>) -> bool {
    exists|i: int| 0 <= i < s.len() && s[i].name@ == name
}

impl Engine {
    /// Whether a live sequence bears this name.
    pub open spec fn has_sequence(self, name: Seq<char>) -> bool {
        seqs_has(self.sequences@, name)
    }

    /// The position of the live sequence bearing this name.
    pub open spec fn sequence_index(self, name: Seq<char>) -> int {
        choose|i: int| 0 <= i < self.sequences@.len() && self.sequences@[i].name@ == name
    }

    /// The record of the live sequence bearing this name.
    pub open spec fn sequence_at(self, name: Seq<char>) -> SequenceRecord {
        self.sequences@[self.sequence_index(name)]
    }

    /// Whether a live topic bears this fully-qualified name.
    pub open spec fn has_topic(self, name: Seq<char>) -> bool {
        topics_has(self.topics@, name)
    }

    /// The position of the live topic bearing this fully-qualified name.
    pub open spec fn topic_index(self, name: Seq<char>) -> int {
        choose|i: int| 0 <= i < self.topics@.len() && self.topics@[i].name@ == name
    }

    /// The record of the live topic bearing this fully-qualified name.
    pub open spec fn topic_at(self, name: Seq<char>) -> TopicRecord {
        self.topics@[self.topic_index(name)]
    }

    /// Internal consistency: unique names, fresh distinct identifiers,
    /// referential integrity of topics to sequences, exact chunk
    /// accounting, and a consistent lock table.
    pub open spec fn wf(self) -> bool {
        &&& self.locks.wf()
        &&& self.next_id > 0
        &&& forall|i: int|
            0 <= i < self.sequences@.len() ==> 0 < (#[trigger] self.sequences@[i]).id.uuid
                < self.next_id
        &&& forall|i: int|
            0 <= i < self.topics@.len() ==> 0 < (#[trigger] self.topics@[i]).id.uuid < self.next_id
        &&& forall|i: int, j: int|
            0 <= i < j < self.sequences@.len() ==> self.sequences@[i].name@
                != self.sequences@[j].name@
        &&& forall|i: int, j: int|
            0 <= i < j < self.topics@.len() ==> self.topics@[i].name@ != self.topics@[j].name@
        &&& forall|i: int, j: int|
            0 <= i < j < self.sequences@.len() ==> self.sequences@[i].id != self.sequences@[j].id
        &&& forall|i: int, j: int|
            0 <= i < j < self.topics@.len() ==> self.topics@[i].id != self.topics@[j].id
        &&& forall|i: int, j: int|
            0 <= i < self.sequences@.len() && 0 <= j < self.topics@.len() ==> (
            #[trigger] self.sequences@[i]).id != (#[trigger] self.topics@[j]).id
        &&& forall|i: int| 0 <= i < self.topics@.len() ==> (#[trigger] self.topics@[i]).wf()
        &&& forall|i: int|
            0 <= i < self.topics@.len() ==> seqs_has(
                self.sequences@,
                (#[trigger] self.topics@[i]).sequence_name@,
            )
    }

    /// A fresh engine: no resources, no events, nothing locked.
    pub fn new() -> (r: Self)
        ensures
            r.wf(),
            r.sequences@.len() == 0,
            r.topics@.len() == 0,
            r.notifies@.len() == 0,
            r.layers@.len() == 0,
            r.locks@ == Map::<Seq<char>, u64>::empty(),
            r.next_id == 1,
    {
        Engine {
            sequences: Vec::new(),
            topics: Vec::new(),
            notifies: Vec::new(),
            layers: Vec::new(),
            locks: LockManager::new(),
            next_id: 1,
        }
    }

    fn find_sequence(&self, name: &str) -> (r: Option<usize>)
        ensures
            match r {
                Some(i) => i < self.sequences@.len() && self.sequences@[i as int].name@ == name@,
                None => !self.has_sequence(name@),
            },
    {
        let mut i: usize = 0;
        while i < self.sequences.len()
            invariant
                i <= self.sequences@.len(),
                forall|j: int| 0 <= j < i ==> self.sequences@[j].name@ != name@,
            decreases self.sequences@.len() - i,
        {
            if str_eq(self.sequences[i].name.as_str(), name) {
                return Some(i);
            }
            i += 1;
        }
        None
    }

    fn find_topic(&self, name: &str) -> (r: Option<usize>)
        ensures
            match r {
                Some(i) => i < self.topics@.len() && self.topics@[i as int].name@ == name@,
                None => !self.has_topic(name@),
            },
    {
        let mut i: usize = 0;
        while i < self.topics.len()
            invariant
                i <= self.topics@.len(),
                forall|j: int| 0 <= j < i ==> self.topics@[j].name@ != name@,
            decreases self.topics@.len() - i,
        {
            if str_eq(self.topics[i].name.as_str(), name) {
                return Some(i);
            }
            i += 1;
        }
        None
    }

    /// Whether a live sequence bears this name.
    pub fn has_sequence_named(&self, name: &str) -> (r: bool)
        ensures
            r == self.has_sequence(name@),
    {
        self.find_sequence(name).is_some()
    }

    /// Whether a live topic bears this fully-qualified name.
    pub fn has_topic_named(&self, name: &str) -> (r: bool)
        ensures
            r == self.has_topic(name@),
    {
        self.find_topic(name).is_some()
    }

    /// Creates a sequence with a unique name among active sequences.
    ///
    /// Fails with `InvalidName` when the name is empty or holds the
    /// separator, with `Conflict` when the name is already in use, and with
    /// `Internal` when the identifier space is exhausted; a failed call
    /// changes nothing.
    pub fn create_sequence(
        &mut self,
        name: &str,
        metadata: Vec<(String, String)>,
        now: i64,
    ) -> (r: Result<ResourceId, EngineError>)
        requires
            old(self).wf(),
        ensures
            final(self).wf(),
            match r {
                Ok(id) => {
                    &&& valid_sequence_name(name@)
                    &&& !old(self).has_sequence(name@)
                    &&& id.wf()
                    &&& id.uuid == old(self).next_id
                    &&& final(self).next_id == old(self).next_id + 1
                    &&& final(self).sequences@.len() == old(self).sequences@.len() + 1
                    &&& forall|j: int|
                        0 <= j < old(self).sequences@.len() ==> final(self).sequences@[j] == old(
                            self,
                        ).sequences@[j]
                    &&& final(self).sequences@.last().id == id
                    &&& final(self).sequences@.last().name@ == name@
                    &&& final(self).sequences@.last().metadata == metadata
                    &&& final(self).sequences@.last().created_at == now
                    &&& final(self).sequences@.last().total_bytes == 0
                    &&& final(self).topics == old(self).topics
                    &&& final(self).notifies == old(self).notifies
                    &&& final(self).layers == old(self).layers
                    &&& final(self).locks == old(self).locks
                },
                Err(e) => {
                    &&& *final(self) == *old(self)
                    &&& if !valid_sequence_name(name@) {
                        e == EngineError::InvalidName
                    } else if old(self).has_sequence(name@) {
                        e == EngineError::Conflict
                    } else {
                        e == EngineError::Internal && old(self).next_id == u128::MAX
                    }
                },
            },
    {
        if !check_sequence_name(name) {
            return Err(EngineError::InvalidName);
        }
        if self.find_sequence(name).is_some() {
            return Err(EngineError::Conflict);
        }
        if self.next_id == u128::MAX {
            return Err(EngineError::Internal);
        }
        let id = ResourceId { uuid: self.next_id };
        self.next_id = self.next_id + 1;
        self.sequences.push(
            SequenceRecord {
                id,
                name: name.to_owned(),
                metadata,
                created_at: now,
                total_bytes: 0,
            },
        );
        proof {
            assert(final(self).sequences@.drop_last() =~= old(self).sequences@);
        }
        Ok(id)
    }

    /// Creates a topic under a live sequence.
    ///
    /// Fails with `InvalidName` when the topic path is malformed, with
    /// `NotFound` when the sequence does not resolve, with `Locked` while
    /// the parent sequence is exclusively held, with `Conflict` when the
    /// fully-qualified name already exists, and with `Internal` when the
    /// identifier space is exhausted; a failed call changes nothing.
    #[verifier::rlimit(50)]
    pub fn create_topic(
        &mut self,
        sequence_name: &str,
        topic_path: &str,
        serialization_format: &str,
        ontology_tag: &str,
        metadata: Vec<(String, String)>,
        now: i64,
    ) -> (r: Result<ResourceId, EngineError>)
        requires
            old(self).wf(),
        ensures
            final(self).wf(),
            match r {
                Ok(id) => {
                    &&& valid_topic_path(topic_path@)
                    &&& old(self).has_sequence(sequence_name@)
                    &&& !old(self).locks@.contains_key(sequence_name@)
                    &&& !old(self).has_topic(topic_full_name(sequence_name@, topic_path@))
                    &&& id.wf()
                    &&& id.uuid == old(self).next_id
                    &&& final(self).next_id == old(self).next_id + 1
                    &&& final(self).topics@.len() == old(self).topics@.len() + 1
                    &&& forall|j: int|
                        0 <= j < old(self).topics@.len() ==> final(self).topics@[j] == old(
                            self,
                        ).topics@[j]
                    &&& final(self).topics@.last().id == id
                    &&& final(self).topics@.last().name@ == topic_full_name(
                        sequence_name@,
                        topic_path@,
                    )
                    &&& final(self).topics@.last().sequence_name@ == sequence_name@
                    &&& final(self).topics@.last().serialization_format@ == serialization_format@
                    &&& final(self).topics@.last().ontology_tag@ == ontology_tag@
                    &&& final(self).topics@.last().metadata == metadata
                    &&& final(self).topics@.last().created_at == now
                    &&& final(self).topics@.last().chunks@.len() == 0
                    &&& final(self).topics@.last().total_bytes == 0
                    &&& final(self).sequences == old(self).sequences
                    &&& final(self).notifies == old(self).notifies
                    &&& final(self).layers == old(self).layers
                    &&& final(self).locks == old(self).locks
                },
                Err(e) => {
                    &&& *final(self) == *old(self)
                    &&& if !valid_topic_path(topic_path@) {
                        e == EngineError::InvalidName
                    } else if !old(self).has_sequence(sequence_name@) {
                        e == EngineError::NotFound
                    } else if old(self).locks@.contains_key(sequence_name@) {
                        e == EngineError::Locked
                    } else if old(self).has_topic(topic_full_name(sequence_name@, topic_path@)) {
                        e == EngineError::Conflict
                    } else {
                        e == EngineError::Internal && old(self).next_id == u128::MAX
                    }
                },
            },
    {
        if !check_topic_path(topic_path) {
            return Err(EngineError::InvalidName);
        }
        if self.find_sequence(sequence_name).is_none() {
            return Err(EngineError::NotFound);
        }
        if self.locks.is_locked(sequence_name) {
            return Err(EngineError::Locked);
        }
        let mut full = sequence_name.to_owned();
        full.append("/");
        full.append(topic_path);
        if self.find_topic(full.as_str()).is_some() {
            return Err(EngineError::Conflict);
        }
        if self.next_id == u128::MAX {
            return Err(EngineError::Internal);
        }
        let id = ResourceId { uuid: self.next_id };
        self.next_id = self.next_id + 1;
        self.topics.push(
            TopicRecord {
                id,
                name: full,
                sequence_name: sequence_name.to_owned(),
                serialization_format: serialization_format.to_owned(),
                ontology_tag: ontology_tag.to_owned(),
                metadata,
                created_at: now,
                chunks: Vec::new(),
                total_bytes: 0,
            },
        );
        proof {
            assert(self.topics@.drop_last() =~= old(self).topics@);
            assert(self.sequences@ == old(self).sequences@);
            assert forall|i: int| 0 <= i < self.topics@.len() implies (
            #[trigger] self.topics@[i]).wf() by {
                if i < self.topics@.len() - 1 {
                    assert(self.topics@[i] == old(self).topics@[i]);
                } else {
                    assert(self.topics@[i].chunks@.len() == 0);
                }
            }
            assert forall|i: int| 0 <= i < self.topics@.len() implies self.has_sequence(
                (#[trigger] self.topics@[i]).sequence_name@,
            ) by {
                if i < self.topics@.len() - 1 {
                    assert(self.topics@[i] == old(self).topics@[i]);
                    assert(old(self).has_sequence(old(self).topics@[i].sequence_name@));
                    let w = choose|k: int|
                        0 <= k < old(self).sequences@.len() && old(self).sequences@[k].name@ == old(
                            self,
                        ).topics@[i].sequence_name@;
                    assert(self.sequences@[w].name@ == self.topics@[i].sequence_name@);
                } else {
                    assert(self.topics@[i].sequence_name@ == sequence_name@);
                }
            }
        }
        Ok(id)
    }

    /// Read-only snapshot of a sequence; `NotFound` when the name does not
    /// resolve. Reads are allowed regardless of lock state.
    pub fn sequence_info(&self, name: &str) -> (r: Result<SequenceInfo, EngineError>)
        requires
            self.wf(),
        ensures
            match r {
                Ok(info) => {
                    &&& self.has_sequence(name@)
                    &&& info.total_size_bytes == self.sequence_at(name@).total_bytes
                    &&& info.is_locked == self.locks@.contains_key(name@)
                    &&& info.created_at == self.sequence_at(name@).created_at
                },
                Err(e) => e == EngineError::NotFound && !self.has_sequence(name@),
            },
    {
        match self.find_sequence(name) {
            None => Err(EngineError::NotFound),
            Some(i) => {
                proof {
                    assert(self.sequences@[self.sequence_index(name@)].name@ == name@);
                    assert(self.sequence_index(name@) == i as int);
                }
                Ok(
                    SequenceInfo {
                        total_size_bytes: self.sequences[i].total_bytes,
                        is_locked: self.locks.is_locked(name),
                        created_at: self.sequences[i].created_at,
                    },
                )
            },
        }
    }

    /// Read-only snapshot of a topic; `NotFound` when the fully-qualified
    /// name does not resolve. Reads are allowed regardless of lock state.
    pub fn topic_info(&self, name: &str) -> (r: Result<TopicInfo, EngineError>)
        requires
            self.wf(),
        ensures
            match r {
                Ok(info) => {
                    &&& self.has_topic(name@)
                    &&& info.chunks_number == self.topic_at(name@).chunks@.len()
                    &&& info.total_size_bytes == self.topic_at(name@).total_bytes
                    &&& info.is_locked == self.locks@.contains_key(name@)
                    &&& info.created_at == self.topic_at(name@).created_at
                },
                Err(e) => e == EngineError::NotFound && !self.has_topic(name@),
            },
    {
        match self.find_topic(name) {
            None => Err(EngineError::NotFound),
            Some(i) => {
                proof {
                    assert(self.topics@[self.topic_index(name@)].name@ == name@);
                    assert(self.topic_index(name@) == i as int);
                }
                Ok(
                    TopicInfo {
                        chunks_number: self.topics[i].chunks.len(),
                        total_size_bytes: self.topics[i].total_bytes,
                        is_locked: self.locks.is_locked(name),
                        created_at: self.topics[i].created_at,
                    },
                )
            },
        }
    }

    /// Opens a bulk-write scope on a topic: acquires the exclusive hold
    /// that stays in place until [`Engine::finish_ingest`] releases it.
    ///
    /// Fails with `NotFound` when the topic does not resolve and with
    /// `Locked` while any writer, this one included, already holds the
    /// topic; a failed call changes nothing.
    pub fn begin_ingest(&mut self, topic: &str, holder: u64) -> (r: Result<(), EngineError>)
        requires
            old(self).wf(),
        ensures
            final(self).wf(),
            final(self).sequences == old(self).sequences,
            final(self).topics == old(self).topics,
            final(self).notifies == old(self).notifies,
            final(self).layers == old(self).layers,
            final(self).next_id == old(self).next_id,
            match r {
                Ok(()) => old(self).has_topic(topic@) && !old(self).locks@.contains_key(topic@)
                    && final(self).locks@ == old(self).locks@.insert(topic@, holder),
                Err(e) => final(self).locks@ == old(self).locks@ && (if !old(self).has_topic(
                    topic@,
                ) {
                    e == EngineError::NotFound
                } else {
                    e == EngineError::Locked && old(self).locks@.contains_key(topic@)
                }),
            },
    {
        if self.find_topic(topic).is_none() {
            return Err(EngineError::NotFound);
        }
        match self.locks.acquire(topic, holder) {
            Ok(()) => Ok(()),
            Err(_) => Err(EngineError::Locked),
        }
    }

    /// Closes a bulk-write scope: releases the hold taken by
    /// [`Engine::begin_ingest`].
    ///
    /// Fails with `NotLocked` when the topic is not held and with
    /// `NotHolder` when a different identity holds it; a failed call
    /// changes nothing.
    pub fn finish_ingest(&mut self, topic: &str, holder: u64) -> (r: Result<(), EngineError>)
        requires
            old(self).wf(),
        ensures
            final(self).wf(),
            final(self).sequences == old(self).sequences,
            final(self).topics == old(self).topics,
            final(self).notifies == old(self).notifies,
            final(self).layers == old(self).layers,
            final(self).next_id == old(self).next_id,
            match r {
                Ok(()) => old(self).locks@.contains_key(topic@) && old(self).locks@[topic@]
                    == holder && final(self).locks@ == old(self).locks@.remove(topic@),
                Err(e) => final(self).locks@ == old(self).locks@ && (if !old(
                    self,
                ).locks@.contains_key(topic@) {
                    e == EngineError::NotLocked
                } else {
                    e == EngineError::NotHolder && old(self).locks@[topic@] != holder
                }),
            },
    {
        self.locks.release(topic, holder)
    }

    /// Commits a batch of chunks to a topic under a scoped exclusive hold:
    /// the hold is taken for the duration of the call and released on every
    /// exit path, the chunks are committed in the order given, and the
    /// topic's and the owning sequence's byte accounting is updated to
    /// match the stored chunks exactly.
    ///
    /// Fails with `NotFound` when the topic does not resolve, with
    /// `MalformedBody` when some span runs backwards, with `Locked` while a
    /// writer already holds the topic, and with `Internal` when the byte
    /// accounting would overflow; a failed call commits nothing.
    #[verifier::rlimit(100)]
    #[verifier::loop_isolation(false)]
    pub fn bulk_write(&mut self, topic: &str, chunks: Vec<Chunk>, holder: u64) -> (r: Result<
        (),
        EngineError,
    >)
        requires
            old(self).wf(),
        ensures
            final(self).wf(),
            final(self).notifies == old(self).notifies,
            final(self).layers == old(self).layers,
            final(self).next_id == old(self).next_id,
            final(self).locks@ == old(self).locks@,
            match r {
                Ok(()) => {
                    let ti = old(self).topic_index(topic@);
                    let owner = old(self).topics@[ti].sequence_name@;
                    let si = old(self).sequence_index(owner);
                    &&& old(self).has_topic(topic@)
                    &&& all_spans_wf(chunks@)
                    &&& !old(self).locks@.contains_key(topic@)
                    &&& final(self).topics@.len() == old(self).topics@.len()
                    &&& forall|j: int|
                        0 <= j < old(self).topics@.len() && j != ti ==> final(self).topics@[j]
                            == old(self).topics@[j]
                    &&& final(self).topics@[ti].chunks@ == old(self).topics@[ti].chunks@ + chunks@
                    &&& final(self).topics@[ti].total_bytes == old(self).topics@[ti].total_bytes
                        + chunks_size(chunks@)
                    &&& final(self).topics@[ti].id == old(self).topics@[ti].id
                    &&& final(self).topics@[ti].name@ == old(self).topics@[ti].name@
                    &&& final(self).topics@[ti].sequence_name@ == owner
                    &&& final(self).topics@[ti].created_at == old(self).topics@[ti].created_at
                    &&& final(self).sequences@.len() == old(self).sequences@.len()
                    &&& forall|j: int|
                        0 <= j < old(self).sequences@.len() && j != si
                            ==> final(self).sequences@[j] == old(self).sequences@[j]
                    &&& final(self).sequences@[si].total_bytes
                        == old(self).sequences@[si].total_bytes + chunks_size(chunks@)
                    &&& final(self).sequences@[si].id == old(self).sequences@[si].id
                    &&& final(self).sequences@[si].name@ == old(self).sequences@[si].name@
                    &&& final(self).sequences@[si].created_at == old(self).sequences@[si].created_at
                },
                Err(e) => {
                    &&& final(self).topics == old(self).topics
                    &&& final(self).sequences == old(self).sequences
                    &&& if !old(self).has_topic(topic@) {
                        e == EngineError::NotFound
                    } else if !all_spans_wf(chunks@) {
                        e == EngineError::MalformedBody
                    } else if old(self).locks@.contains_key(topic@) {
                        e == EngineError::Locked
                    } else {
                        let ti = old(self).topic_index(topic@);
                        let owner = old(self).topics@[ti].sequence_name@;
                        let si = old(self).sequence_index(owner);
                        e == EngineError::Internal && (old(self).topics@[ti].total_bytes
                            + chunks_size(chunks@) > usize::MAX || old(
                            self,
                        ).sequences@[si].total_bytes + chunks_size(chunks@) > usize::MAX)
                    }
                },
            },
    {
        let ti = match self.find_topic(topic) {
            None => {
                return Err(EngineError::NotFound);
            },
            Some(i) => i,
        };
        proof {
            assert(self.topics@[self.topic_index(topic@)].name@ == topic@);
            assert(self.topic_index(topic@) == ti as int);
        }
        let mut k: usize = 0;
        while k < chunks.len()
            invariant
                k <= chunks@.len(),
                forall|j: int| 0 <= j < k ==> (#[trigger] chunks@[j]).wf(),
            decreases chunks@.len() - k,
        {
            if chunks[k].span.end < chunks[k].span.start {
                return Err(EngineError::MalformedBody);
            }
            k += 1;
        }
        if self.locks.is_locked(topic) {
            return Err(EngineError::Locked);
        }
        let mut total: usize = 0;
        let mut k: usize = 0;
        while k < chunks.len()
            invariant
                k <= chunks@.len(),
                total == chunks_size(chunks@.take(k as int)),
            decreases chunks@.len() - k,
        {
            let sz = chunks[k].data.len();
            proof {
                assert(chunks@.take(k + 1).drop_last() =~= chunks@.take(k as int));
                assert(chunks@.take(k + 1).last() == chunks@[k as int]);
            }
            if total > usize::MAX - sz {
                proof {
                    lemma_chunks_size_prefix(chunks@, k + 1);
                }
                return Err(EngineError::Internal);
            }
            total = total + sz;
            k += 1;
        }
        proof {
            assert(chunks@.take(chunks@.len() as int) =~= chunks@);
        }
        let t_total = self.topics[ti].total_bytes;
        if t_total > usize::MAX - total {
            return Err(EngineError::Internal);
        }
        let owner = self.topics[ti].sequence_name.clone();
        let si = match self.find_sequence(owner.as_str()) {
            None => {
                proof {
                    assert(false);
                }
                return Err(EngineError::Internal);
            },
            Some(j) => j,
        };
        proof {
            assert(self.sequences@[self.sequence_index(owner@)].name@ == owner@);
            assert(self.sequence_index(owner@) == si as int);
        }
        let s_total = self.sequences[si].total_bytes;
        if s_total > usize::MAX - total {
            return Err(EngineError::Internal);
        }
        match self.locks.acquire(topic, holder) {
            Err(_) => {
                proof {
                    assert(false);
                }
                return Err(EngineError::Internal);
            },
            Ok(()) => {},
        }
        let ghost all: Seq<Chunk> = chunks@;
        let ghost pre: Seq<TopicRecord> = self.topics@;
        let ghost pre_seqs: Seq<SequenceRecord> = self.sequences@;
        let ghost lm: LockManager = self.locks;
        let mut rest = chunks;
        let mut appended: usize = 0;
        while rest.len() > 0
            invariant
                ti < pre.len(),
                appended <= all.len(),
                rest@ =~= all.skip(appended as int),
                self.topics@.len() == pre.len(),
                forall|j: int| 0 <= j < pre.len() && j != ti ==> self.topics@[j] == pre[j],
                self.topics@[ti as int].chunks@ == pre[ti as int].chunks@ + all.take(
                    appended as int,
                ),
                self.topics@[ti as int].id == pre[ti as int].id,
                self.topics@[ti as int].name == pre[ti as int].name,
                self.topics@[ti as int].sequence_name == pre[ti as int].sequence_name,
                self.topics@[ti as int].serialization_format == pre[
                    ti as int
                ].serialization_format,
                self.topics@[ti as int].ontology_tag == pre[ti as int].ontology_tag,
                self.topics@[ti as int].metadata == pre[ti as int].metadata,
                self.topics@[ti as int].created_at == pre[ti as int].created_at,
                self.topics@[ti as int].total_bytes == pre[ti as int].total_bytes,
                self.sequences@ == pre_seqs,
                self.notifies == old(self).notifies,
                self.layers == old(self).layers,
                self.next_id == old(self).next_id,
                self.locks == lm,
            decreases rest@.len(),
        {
            proof {
                assert(appended < all.len());
            }
            let c = rest.remove(0);
            proof {
                assert(all.skip(appended as int)[0] == all[appended as int]);
                assert(all.skip(appended as int).remove(0) =~= all.skip(appended as int + 1));
                assert(all.take(appended as int).push(all[appended as int]) =~= all.take(
                    appended as int + 1,
                ));
            }
            self.topics[ti].chunks.push(c);
            appended += 1;
        }
        proof {
            assert(appended == all.len());
            assert(all.take(appended as int) =~= all);
        }
        self.topics[ti].total_bytes = t_total + total;
        self.sequences[si].total_bytes = s_total + total;
        match self.locks.release(topic, holder) {
            Err(_) => {
                proof {
                    assert(false);
                }
                return Err(EngineError::Internal);
            },
            Ok(()) => {},
        }
        proof {
            assert(self.locks@ =~= old(self).locks@);
            lemma_chunks_size_concat(pre[ti as int].chunks@, all);
            assert forall|i2: int, j2: int|
                0 <= i2 < j2 < self.sequences@.len() implies self.sequences@[i2].name@
                != self.sequences@[j2].name@ by {
                assert(self.sequences@[i2].name@ == old(self).sequences@[i2].name@);
                assert(self.sequences@[j2].name@ == old(self).sequences@[j2].name@);
            }
            assert forall|i2: int, j2: int|
                0 <= i2 < j2 < self.sequences@.len() implies self.sequences@[i2].id
                != self.sequences@[j2].id by {
                assert(self.sequences@[i2].id == old(self).sequences@[i2].id);
                assert(self.sequences@[j2].id == old(self).sequences@[j2].id);
            }
            assert forall|i2: int|
                0 <= i2 < self.sequences@.len() implies 0 < (
            #[trigger] self.sequences@[i2]).id.uuid < self.next_id by {
                assert(self.sequences@[i2].id == old(self).sequences@[i2].id);
            }
            assert forall|i2: int, j2: int|
                0 <= i2 < self.sequences@.len() && 0 <= j2 < self.topics@.len() implies (
            #[trigger] self.sequences@[i2]).id != (#[trigger] self.topics@[j2]).id by {
                assert(self.sequences@[i2].id == old(self).sequences@[i2].id);
                assert(self.topics@[j2].id == old(self).topics@[j2].id);
            }
            assert forall|i2: int, j2: int|
                0 <= i2 < j2 < self.topics@.len() implies self.topics@[i2].name@
                != self.topics@[j2].name@ by {
                assert(self.topics@[i2].name@ == old(self).topics@[i2].name@);
                assert(self.topics@[j2].name@ == old(self).topics@[j2].name@);
            }
            assert forall|i2: int, j2: int|
                0 <= i2 < j2 < self.topics@.len() implies self.topics@[i2].id
                != self.topics@[j2].id by {
                assert(self.topics@[i2].id == old(self).topics@[i2].id);
                assert(self.topics@[j2].id == old(self).topics@[j2].id);
            }
            assert forall|i2: int|
                0 <= i2 < self.topics@.len() implies 0 < (#[trigger] self.topics@[i2]).id.uuid
                < self.next_id by {
                assert(self.topics@[i2].id == old(self).topics@[i2].id);
            }
            assert forall|j: int| 0 <= j < self.topics@.len() implies (
            #[trigger] self.topics@[j]).wf() by {
                if j != ti as int {
                    assert(self.topics@[j] == old(self).topics@[j]);
                } else {
                    assert(self.topics@[j].chunks@ == pre[j].chunks@ + all);
                    assert(self.topics@[j].total_bytes == chunks_size(self.topics@[j].chunks@));
                    assert forall|k3: int|
                        0 <= k3 < self.topics@[j].chunks@.len() implies (
                    #[trigger] self.topics@[j].chunks@[k3]).wf() by {
                        if k3 < pre[j].chunks@.len() {
                            assert(self.topics@[j].chunks@[k3] == pre[j].chunks@[k3]);
                            assert(pre[j].wf());
                        } else {
                            assert(self.topics@[j].chunks@[k3] == all[k3 - pre[j].chunks@.len()]);
                        }
                    }
                }
            }
            assert forall|j: int|
                0 <= j < self.topics@.len() implies seqs_has(
                self.sequences@,
                (#[trigger] self.topics@[j]).sequence_name@,
            ) by {
                assert(self.topics@[j].sequence_name@ == old(self).topics@[j].sequence_name@);
                let w = choose|w: int|
                    0 <= w < old(self).sequences@.len() && old(self).sequences@[w].name@ == old(
                        self,
                    ).topics@[j].sequence_name@;
                assert(self.sequences@[w].name@ == old(self).sequences@[w].name@);
            }
        }
        Ok(())
    }

    /// Resolves a bulk read: the chunks whose spans intersect the requested
    /// range (all of them when no range is given), as fresh copies in
    /// commit order.
    ///
    /// Reads are allowed regardless of lock state and see only committed
    /// chunks: the lock blocks writers, never readers.
    ///
    /// Fails with `NotFound` when the topic does not resolve; a topic with
    /// no chunk in the window yields an empty run instead, so the two are
    /// distinguishable.
    pub fn bulk_read(&self, topic: &str, range: Option<TimestampRange>) -> (r: Result<
        Vec<Chunk>,
        EngineError,
    >)
        requires
            self.wf(),
        ensures
            match r {
                Ok(v) => self.has_topic(topic@) && v@.map_values(|c: Chunk| chunk_view(c))
                    == selected_views(self.topic_at(topic@).chunks@, range),
                Err(e) => e == EngineError::NotFound && !self.has_topic(topic@),
            },
    {
        let ti = match self.find_topic(topic) {
            None => {
                return Err(EngineError::NotFound);
            },
            Some(i) => i,
        };
        proof {
            assert(self.topics@[self.topic_index(topic@)].name@ == topic@);
            assert(self.topic_index(topic@) == ti as int);
        }
        let tchunks = &self.topics[ti].chunks;
        let mut out: Vec<Chunk> = Vec::new();
        let mut k: usize = 0;
        while k < tchunks.len()
            invariant
                k <= tchunks@.len(),
                tchunks@ == self.topics@[ti as int].chunks@,
                out@.map_values(|c: Chunk| chunk_view(c)) == selected_views(
                    tchunks@.take(k as int),
                    range,
                ),
            decreases tchunks@.len() - k,
        {
            proof {
                assert(tchunks@.take(k + 1).drop_last() =~= tchunks@.take(k as int));
                assert(tchunks@.take(k + 1).last() == tchunks@[k as int]);
            }
            let keep = match range {
                None => true,
                Some(q) => q.intersects(&tchunks[k].span),
            };
            if keep {
                let c = tchunks[k].clone();
                proof {
                    assert(chunk_view(c) == chunk_view(tchunks@[k as int]));
                }
                out.push(c);
                proof {
                    assert(out@.map_values(|c2: Chunk| chunk_view(c2)) =~= selected_views(
                        tchunks@.take(k as int + 1),
                        range,
                    ));
                }
            }
            k += 1;
        }
        proof {
            assert(tchunks@.take(tchunks@.len() as int) =~= tchunks@);
        }
        Ok(out)
    }

    /// Appends an immutable event record to the notification log.
    pub fn push_notify(&mut self, n: Notify)
        requires
            old(self).wf(),
        ensures
            final(self).wf(),
            final(self).notifies@ == old(self).notifies@.push(n),
            final(self).sequences == old(self).sequences,
            final(self).topics == old(self).topics,
            final(self).layers == old(self).layers,
            final(self).locks == old(self).locks,
            final(self).next_id == old(self).next_id,
    {
        self.notifies.push(n);
    }

    /// Registers a layer in the catalog.
    pub fn push_layer(&mut self, l: Layer)
        requires
            old(self).wf(),
        ensures
            final(self).wf(),
            final(self).layers@ == old(self).layers@.push(l),
            final(self).sequences == old(self).sequences,
            final(self).topics == old(self).topics,
            final(self).notifies == old(self).notifies,
            final(self).locks == old(self).locks,
            final(self).next_id == old(self).next_id,
    {
        self.layers.push(l);
    }
}

} // verus!
