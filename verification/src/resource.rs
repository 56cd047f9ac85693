use vstd::prelude::*;

use crate::num::hex_of;

verus! {

/// String equality by view, for `&str` operands.
pub fn str_eq(a: &str, b: &str) -> (r: bool)
    ensures
        r == (a@ == b@),
{
    a.to_owned().eq(&b.to_owned())
}

/// An opaque 128-bit identifier, globally unique, assigned at creation and
/// immutable afterwards.
#[derive(Clone, Copy, PartialEq, Eq, Structural, Debug)]
pub struct ResourceId {
    pub uuid: u128,
}

/// The canonical textual form of a 128-bit identifier: 32 lowercase
/// hexadecimal digits in groups of 8, 4, 4, 4 and 12, separated by hyphens.
pub open spec fn uuid_text(n: nat) -> Seq<char> {
    hex_of(n / 0x1000000000000000000000000, 8) + "-"@ + hex_of(
        (n / 0x100000000000000000000) % 0x10000,
        4,
    ) + "-"@ + hex_of((n / 0x10000000000000000) % 0x10000, 4) + "-"@ + hex_of(
        (n / 0x1000000000000) % 0x10000,
        4,
    ) + "-"@ + hex_of(n % 0x1000000000000, 12)
}

impl ResourceId {
    /// Assigned identifiers are neither the nil nor the all-ones value.
    pub open spec fn wf(self) -> bool {
        0 < self.uuid < u128::MAX
    }

    /// Renders the identifier in its canonical string form.
    pub fn to_string(&self) -> (r: String)
        ensures
            r@ == uuid_text(self.uuid as nat),
    {
        let n: u128 = self.uuid;
        let mut s = crate::num::u128_to_hex(n / 0x1000000000000000000000000, 8);
        s.append("-");
        let g2 = crate::num::u128_to_hex((n / 0x100000000000000000000) % 0x10000, 4);
        s.append(g2.as_str());
        s.append("-");
        let g3 = crate::num::u128_to_hex((n / 0x10000000000000000) % 0x10000, 4);
        s.append(g3.as_str());
        s.append("-");
        let g4 = crate::num::u128_to_hex((n / 0x1000000000000) % 0x10000, 4);
        s.append(g4.as_str());
        s.append("-");
        let g5 = crate::num::u128_to_hex(n % 0x1000000000000, 12);
        s.append(g5.as_str());
        s
    }
}

/// A closed numeric interval `[start, end]` over integer timestamps, used to
/// qualify queries against a topic's stored time span.
#[derive(Clone, Copy, PartialEq, Eq, Structural, Debug)]
pub struct TimestampRange {
    pub start: i64,
    pub end: i64,
}

impl TimestampRange {
    /// A range never runs backwards.
    pub open spec fn wf(self) -> bool {
        self.start <= self.end
    }

    /// Whether two closed intervals share at least one timestamp.
    pub open spec fn spec_intersects(self, other: TimestampRange) -> bool {
        self.start <= other.end && other.start <= self.end
    }

    /// Whether two closed intervals share at least one timestamp.
    pub fn intersects(&self, other: &TimestampRange) -> (r: bool)
        ensures
            r == self.spec_intersects(*other),
    {
        self.start <= other.end && other.start <= self.end
    }
}

/// The display name of a locator string: the leading separator, if present,
/// is stripped; nothing else changes.
pub open spec fn locator_name_of(s: Seq<char>) -> Seq<char> {
    if s.len() > 0 && s[0] == '/' {
        s.skip(1)
    } else {
        s
    }
}

fn strip_leading_separator(s: &str) -> (r: String)
    ensures
        r@ == locator_name_of(s@),
{
    let len = s.unicode_len();
    if len > 0 && s.get_char(0) == '/' {
        let rest = s.substring_char(1, len);
        proof {
            assert(rest@ =~= s@.skip(1));
        }
        rest.to_owned()
    } else {
        s.to_owned()
    }
}

/// A top-level locator `"/<sequence_name>"`; its name strips the leading
/// separator and is the exact string used for display and equality.
pub struct SequenceResourceLocator {
    pub name: String,
}

impl SequenceResourceLocator {
    /// Parses a locator from its slash-prefixed string form.
    pub fn from(s: &str) -> (r: Self)
        ensures
            r.name@ == locator_name_of(s@),
    {
        SequenceResourceLocator { name: strip_leading_separator(s) }
    }

    /// The display name of the locator.
    pub fn name(&self) -> (r: &str)
        ensures
            r@ == self.name@,
    {
        self.name.as_str()
    }
}

impl Clone for SequenceResourceLocator {
    fn clone(&self) -> (r: Self)
        ensures
            r.name@ == self.name@,
    {
        SequenceResourceLocator { name: self.name.clone() }
    }
}

/// A locator `"/<sequence_name>/<topic_path...>"` naming a topic under its
/// owning sequence; optionally carries a timestamp range. The range is
/// query metadata, not part of the name.
pub struct TopicResourceLocator {
    pub name: String,
    pub timestamp_range: Option<TimestampRange>,
}

impl TopicResourceLocator {
    /// Parses a locator from its slash-prefixed string form; no range is
    /// attached.
    pub fn from(s: &str) -> (r: Self)
        ensures
            r.name@ == locator_name_of(s@),
            r.timestamp_range is None,
    {
        TopicResourceLocator { name: strip_leading_separator(s), timestamp_range: None }
    }

    /// Attaches a timestamp range, leaving the name unchanged.
    pub fn with_timestamp_range(self, range: TimestampRange) -> (r: Self)
        ensures
            r.name@ == self.name@,
            r.timestamp_range == Some(range),
    {
        TopicResourceLocator { name: self.name, timestamp_range: Some(range) }
    }

    /// The display name of the locator.
    pub fn name(&self) -> (r: &str)
        ensures
            r@ == self.name@,
    {
        self.name.as_str()
    }
}

impl Clone for TopicResourceLocator {
    fn clone(&self) -> (r: Self)
        ensures
            r.name@ == self.name@,
            r.timestamp_range == self.timestamp_range,
    {
        TopicResourceLocator { name: self.name.clone(), timestamp_range: self.timestamp_range }
    }
}

/// An append-only event record describing something that happened to a
/// resource; immutable once created.
pub struct Notify {
    /// Name of the sequence or topic the event concerns.
    pub target: String,
    /// Category tag of the event.
    pub notify_type: String,
    /// Optional free-form detail.
    pub msg: Option<String>,
    /// Creation timestamp, in the system-wide integer unit.
    pub created_at: i64,
}

impl Clone for Notify {
    fn clone(&self) -> (r: Self)
        ensures
            r.target@ == self.target@,
            r.notify_type@ == self.notify_type@,
            match self.msg {
                Some(m) => r.msg is Some && r.msg->0@ == m@,
                None => r.msg is None,
            },
            r.created_at == self.created_at,
    {
        Notify {
            target: self.target.clone(),
            notify_type: self.notify_type.clone(),
            msg: match &self.msg {
                Some(m) => Some(m.clone()),
                None => None,
            },
            created_at: self.created_at,
        }
    }
}

/// A named, described classification or processing annotation; read-mostly
/// reference data listed as name and description pairs.
pub struct Layer {
    /// Display name of the layer.
    pub locator: String,
    /// Human-readable description.
    pub description: String,
}

impl Clone for Layer {
    fn clone(&self) -> (r: Self)
        ensures
            r.locator@ == self.locator@,
            r.description@ == self.description@,
    {
        Layer { locator: self.locator.clone(), description: self.description.clone() }
    }
}

/// Read-only snapshot of a topic's accounting state.
#[derive(Clone, Copy, PartialEq, Eq, Structural, Debug)]
pub struct TopicInfo {
    /// Number of committed chunks in the topic.
    pub chunks_number: usize,
    /// Total size in bytes of the committed chunk payloads; sequence-level
    /// system files are excluded.
    pub total_size_bytes: usize,
    /// True while an exclusive writer holds the topic.
    pub is_locked: bool,
    /// Creation timestamp, in the system-wide integer unit.
    pub created_at: i64,
}

/// Read-only snapshot of a sequence's accounting state.
#[derive(Clone, Copy, PartialEq, Eq, Structural, Debug)]
pub struct SequenceInfo {
    /// Total size in bytes, including sequence-level system files.
    pub total_size_bytes: usize,
    /// True while an exclusive writer holds the sequence.
    pub is_locked: bool,
    /// Creation timestamp, in the system-wide integer unit.
    pub created_at: i64,
}

/// One immutable unit of stored payload spanning a contiguous timestamp
/// sub-range.
pub struct Chunk {
    /// The contiguous sub-range the payload covers.
    pub span: TimestampRange,
    /// The payload bytes.
    pub data: Vec<u8>,
}

impl Chunk {
    /// A chunk's span never runs backwards.
    pub open spec fn wf(self) -> bool {
        self.span.wf()
    }
}

impl Clone for Chunk {
    fn clone(&self) -> (r: Self)
        ensures
            r.span == self.span,
            r.data@ == self.data@,
    {
        let data = self.data.clone();
        proof {
            assert(data@ =~= self.data@);
        }
        Chunk { span: self.span, data }
    }
}

/// The topics matched for one owning sequence, in first-seen order.
pub struct SequenceTopicGroup {
    /// The owning sequence.
    pub sequence: SequenceResourceLocator,
    /// The matched topics, each optionally range-qualified.
    pub topics: Vec<TopicResourceLocator>,
}

impl SequenceTopicGroup {
    /// Builds a group from its sequence and matched topics.
    pub fn new(sequence: SequenceResourceLocator, topics: Vec<TopicResourceLocator>) -> (r: Self)
        ensures
            r.sequence == sequence,
            r.topics == topics,
    {
        SequenceTopicGroup { sequence, topics }
    }
}

/// A query result: one group per matched sequence, in first-seen order.
pub struct SequenceTopicGroupSet {
    /// The groups, one per sequence.
    pub groups: Vec<SequenceTopicGroup>,
}

impl SequenceTopicGroupSet {
    /// Hands the groups out in order.
    pub fn into_groups(self) -> (r: Vec<SequenceTopicGroup>)
        ensures
            r == self.groups,
    {
        self.groups
    }
}

} // verus!
