use vstd::prelude::*;

use crate::num::{dec_int_of, dec_of, i64_to_dec, usize_to_dec};
use crate::resource::{
    Layer, Notify, ResourceId, SequenceInfo, SequenceTopicGroup, SequenceTopicGroupSet, TopicInfo,
    TopicResourceLocator, uuid_text,
};

verus! {

/// The JSON escape of one character: quotes and backslashes take a leading
/// backslash, everything else stands for itself.
pub open spec fn esc_char(c: char) -> Seq<char> {
    if c == '"' {
        "\\\""@
    } else if c == '\\' {
        "\\\\"@
    } else {
        seq![c]
    }
}

/// The JSON escape of a whole string body.
pub open spec fn json_escaped(s: Seq<char>) -> Seq<char>
    decreases s.len(),
{
    if s.len() == 0 {
        Seq::empty()
    } else {
        json_escaped(s.drop_last()) + esc_char(s.last())
    }
}

/// A JSON string literal: the escaped body between double quotes.
pub open spec fn json_string(s: Seq<char>) -> Seq<char> {
    "\""@ + json_escaped(s) + "\""@
}

/// The JSON rendering of a boolean.
pub open spec fn bool_text(b: bool) -> Seq<char> {
    if b {
        "true"@
    } else {
        "false"@
    }
}

/// A comma-joined run of already-rendered JSON values.
pub open spec fn json_list(items: Seq<Seq<char>>) -> Seq<char>
    decreases items.len(),
{
    if items.len() == 0 {
        Seq::empty()
    } else if items.len() == 1 {
        items[0]
    } else {
        json_list(items.drop_last()) + ","@ + items.last()
    }
}

fn append_json_escaped(out: &mut String, s: &str)
    ensures
        final(out)@ == old(out)@ + json_escaped(s@),
{
    let len = s.unicode_len();
    let mut i: usize = 0;
    while i < len
        invariant
            len == s@.len(),
            i <= len,
            out@ == old(out)@ + json_escaped(s@.take(i as int)),
        decreases len - i,
    {
        proof {
            assert(s@.take(i as int + 1).drop_last() =~= s@.take(i as int));
            assert(s@.take(i as int + 1).last() == s@[i as int]);
        }
        let c = s.get_char(i);
        if c == '"' {
            out.append("\\\"");
        } else if c == '\\' {
            out.append("\\\\");
        } else {
            let piece = s.substring_char(i, i + 1);
            proof {
                assert(piece@ =~= seq![s@[i as int]]);
            }
            out.append(piece);
        }
        i += 1;
    }
    proof {
        assert(s@.take(len as int) =~= s@);
    }
}

fn append_json_string(out: &mut String, s: &str)
    ensures
        final(out)@ == old(out)@ + json_string(s@),
{
    out.append("\"");
    append_json_escaped(out, s);
    out.append("\"");
}

fn append_bool(out: &mut String, b: bool)
    ensures
        final(out)@ == old(out)@ + bool_text(b),
{
    if b {
        out.append("true");
    } else {
        out.append("false");
    }
}

/// Generic response message used to provide to clients the key of a
/// resource.
pub struct ResourceKey {
    /// The canonical string form of the resource identifier.
    pub key: String,
}

/// The JSON body of a `ResourceKey` response.
pub open spec fn resource_key_json(key: Seq<char>) -> Seq<char> {
    "{\"key\":"@ + json_string(key) + "}"@
}

impl ResourceKey {
    /// Renders a resource identifier in its canonical string form.
    pub fn from(value: ResourceId) -> (r: Self)
        ensures
            r.key@ == uuid_text(value.uuid as nat),
    {
        ResourceKey { key: value.to_string() }
    }

    /// Serializes the response body.
    pub fn to_json(&self) -> (r: String)
        ensures
            r@ == resource_key_json(self.key@),
    {
        let mut out = String::from_str("{\"key\":");
        append_json_string(&mut out, self.key.as_str());
        out.append("}");
        out
    }
}

/// Snapshot of a topic's accounting, in its wire form.
pub struct TopicSystemInfo {
    /// Number of chunks in the topic.
    pub chunks_number: usize,
    /// Total size in bytes of the data. Metadata and other system files
    /// are excluded in the count.
    pub total_size_bytes: usize,
    /// True if topic is locked.
    pub is_locked: bool,
    /// Datetime of the topic creation.
    pub created_datetime: String,
}

/// The JSON body of a `TopicSystemInfo` response.
pub open spec fn topic_system_info_json(
    chunks_number: nat,
    total_size_bytes: nat,
    is_locked: bool,
    created_datetime: Seq<char>,
) -> Seq<char> {
    "{\"chunks_number\":"@ + dec_of(chunks_number) + ",\"total_size_bytes\":"@ + dec_of(
        total_size_bytes,
    ) + ",\"is_locked\":"@ + bool_text(is_locked) + ",\"created_datetime\":"@ + json_string(
        created_datetime,
    ) + "}"@
}

impl TopicSystemInfo {
    /// Converts an engine snapshot, rendering the creation timestamp in
    /// its textual form.
    pub fn from(value: TopicInfo) -> (r: Self)
        ensures
            r.chunks_number == value.chunks_number,
            r.total_size_bytes == value.total_size_bytes,
            r.is_locked == value.is_locked,
            r.created_datetime@ == dec_int_of(value.created_at as int),
    {
        TopicSystemInfo {
            chunks_number: value.chunks_number,
            total_size_bytes: value.total_size_bytes,
            is_locked: value.is_locked,
            created_datetime: i64_to_dec(value.created_at),
        }
    }

    /// Serializes the response body.
    pub fn to_json(&self) -> (r: String)
        ensures
            r@ == topic_system_info_json(
                self.chunks_number as nat,
                self.total_size_bytes as nat,
                self.is_locked,
                self.created_datetime@,
            ),
    {
        let mut out = String::from_str("{\"chunks_number\":");
        let n = usize_to_dec(self.chunks_number);
        out.append(n.as_str());
        out.append(",\"total_size_bytes\":");
        let t = usize_to_dec(self.total_size_bytes);
        out.append(t.as_str());
        out.append(",\"is_locked\":");
        append_bool(&mut out, self.is_locked);
        out.append(",\"created_datetime\":");
        append_json_string(&mut out, self.created_datetime.as_str());
        out.append("}");
        out
    }
}

/// Snapshot of a sequence's accounting, in its wire form.
pub struct SequenceSystemInfo {
    /// Total size in bytes of the data. This value includes additional
    /// system files.
    pub total_size_bytes: usize,
    /// True if sequence is locked.
    pub is_locked: bool,
    /// Datetime of the sequence creation.
    pub created_datetime: String,
}

/// The JSON body of a `SequenceSystemInfo` response.
pub open spec fn sequence_system_info_json(
    total_size_bytes: nat,
    is_locked: bool,
    created_datetime: Seq<char>,
) -> Seq<char> {
    "{\"total_size_bytes\":"@ + dec_of(total_size_bytes) + ",\"is_locked\":"@ + bool_text(
        is_locked,
    ) + ",\"created_datetime\":"@ + json_string(created_datetime) + "}"@
}

impl SequenceSystemInfo {
    /// Converts an engine snapshot, rendering the creation timestamp in
    /// its textual form.
    pub fn from(value: SequenceInfo) -> (r: Self)
        ensures
            r.total_size_bytes == value.total_size_bytes,
            r.is_locked == value.is_locked,
            r.created_datetime@ == dec_int_of(value.created_at as int),
    {
        SequenceSystemInfo {
            total_size_bytes: value.total_size_bytes,
            is_locked: value.is_locked,
            created_datetime: i64_to_dec(value.created_at),
        }
    }

    /// Serializes the response body.
    pub fn to_json(&self) -> (r: String)
        ensures
            r@ == sequence_system_info_json(
                self.total_size_bytes as nat,
                self.is_locked,
                self.created_datetime@,
            ),
    {
        let mut out = String::from_str("{\"total_size_bytes\":");
        let t = usize_to_dec(self.total_size_bytes);
        out.append(t.as_str());
        out.append(",\"is_locked\":");
        append_bool(&mut out, self.is_locked);
        out.append(",\"created_datetime\":");
        append_json_string(&mut out, self.created_datetime.as_str());
        out.append("}");
        out
    }
}

/// One notification record, in its wire form.
pub struct ResponseNotifyItem {
    /// Name of the resource the event concerns.
    pub name: String,
    /// Category tag of the event.
    pub notify_type: String,
    /// Free-form detail; empty when the record carries none.
    pub msg: String,
    /// Datetime of the event creation.
    pub created_datetime: String,
}

/// The JSON body of one notification record.
pub open spec fn notify_item_json(
    name: Seq<char>,
    notify_type: Seq<char>,
    msg: Seq<char>,
    created_datetime: Seq<char>,
) -> Seq<char> {
    "{\"name\":"@ + json_string(name) + ",\"notify_type\":"@ + json_string(notify_type)
        + ",\"msg\":"@ + json_string(msg) + ",\"created_datetime\":"@ + json_string(
        created_datetime,
    ) + "}"@
}

impl ResponseNotifyItem {
    /// Converts an engine record; a missing message becomes the empty
    /// string.
    pub fn from(value: Notify) -> (r: Self)
        ensures
            r.name@ == value.target@,
            r.notify_type@ == value.notify_type@,
            r.msg@ == (match value.msg {
                Some(m) => m@,
                None => Seq::<char>::empty(),
            }),
            r.created_datetime@ == dec_int_of(value.created_at as int),
    {
        let msg = match value.msg {
            Some(m) => m,
            None => String::new(),
        };
        ResponseNotifyItem {
            name: value.target,
            notify_type: value.notify_type,
            msg,
            created_datetime: i64_to_dec(value.created_at),
        }
    }

    /// Serializes the response body.
    pub fn to_json(&self) -> (r: String)
        ensures
            r@ == notify_item_json(
                self.name@,
                self.notify_type@,
                self.msg@,
                self.created_datetime@,
            ),
    {
        let mut out = String::from_str("{\"name\":");
        append_json_string(&mut out, self.name.as_str());
        out.append(",\"notify_type\":");
        append_json_string(&mut out, self.notify_type.as_str());
        out.append(",\"msg\":");
        append_json_string(&mut out, self.msg.as_str());
        out.append(",\"created_datetime\":");
        append_json_string(&mut out, self.created_datetime.as_str());
        out.append("}");
        out
    }
}

/// The rendered JSON of each notification item, in order.
pub open spec fn notify_items_rendered(s: Seq<ResponseNotifyItem>) -> Seq<Seq<char>> {
    s.map_values(
        |it: ResponseNotifyItem|
            notify_item_json(it.name@, it.notify_type@, it.msg@, it.created_datetime@),
    )
}

/// A run of notification records, in its wire form.
pub struct NotifyList {
    /// The records, in log order.
    pub notifies: Vec<ResponseNotifyItem>,
}

/// The JSON body of a notification list response.
pub open spec fn notify_list_json(s: Seq<ResponseNotifyItem>) -> Seq<char> {
    "{\"notifies\":["@ + json_list(notify_items_rendered(s)) + "]}"@
}

impl NotifyList {
    /// Converts a run of engine records, keeping their order.
    pub fn from(value: Vec<Notify>) -> (r: Self)
        ensures
            r.notifies@.len() == value@.len(),
            forall|i: int|
                0 <= i < value@.len() ==> {
                    &&& (#[trigger] r.notifies@[i]).name@ == value@[i].target@
                    &&& r.notifies@[i].notify_type@ == value@[i].notify_type@
                    &&& r.notifies@[i].msg@ == (match value@[i].msg {
                        Some(m) => m@,
                        None => Seq::<char>::empty(),
                    })
                    &&& r.notifies@[i].created_datetime@ == dec_int_of(value@[i].created_at as int)
                },
    {
        let ghost orig: Seq<Notify> = value@;
        let mut rest = value;
        let mut out: Vec<ResponseNotifyItem> = Vec::new();
        while rest.len() > 0
            invariant
                out@.len() + rest@.len() == orig.len(),
                rest@ =~= orig.skip(out@.len() as int),
                forall|i: int|
                    0 <= i < out@.len() ==> {
                        &&& (#[trigger] out@[i]).name@ == orig[i].target@
                        &&& out@[i].notify_type@ == orig[i].notify_type@
                        &&& out@[i].msg@ == (match orig[i].msg {
                            Some(m) => m@,
                            None => Seq::<char>::empty(),
                        })
                        &&& out@[i].created_datetime@ == dec_int_of(orig[i].created_at as int)
                    },
            decreases rest@.len(),
        {
            proof {
                assert(orig.skip(out@.len() as int)[0] == orig[out@.len() as int]);
                assert(orig.skip(out@.len() as int).remove(0) =~= orig.skip(
                    out@.len() as int + 1,
                ));
            }
            let n = rest.remove(0);
            out.push(ResponseNotifyItem::from(n));
        }
        NotifyList { notifies: out }
    }

    /// Serializes the response body.
    pub fn to_json(&self) -> (r: String)
        ensures
            r@ == notify_list_json(self.notifies@),
    {
        let mut out = String::from_str("{\"notifies\":[");
        let mut i: usize = 0;
        while i < self.notifies.len()
            invariant
                i <= self.notifies@.len(),
                out@ == "{\"notifies\":["@ + json_list(
                    notify_items_rendered(self.notifies@.take(i as int)),
                ),
            decreases self.notifies@.len() - i,
        {
            if i > 0 {
                out.append(",");
            }
            let item = self.notifies[i].to_json();
            out.append(item.as_str());
            proof {
                assert(notify_items_rendered(self.notifies@.take(i as int + 1)).drop_last()
                    =~= notify_items_rendered(self.notifies@.take(i as int)));
                assert(notify_items_rendered(self.notifies@.take(i as int + 1)).last()
                    == notify_item_json(
                    self.notifies@[i as int].name@,
                    self.notifies@[i as int].notify_type@,
                    self.notifies@[i as int].msg@,
                    self.notifies@[i as int].created_datetime@,
                ));
            }
            i += 1;
        }
        proof {
            assert(self.notifies@.take(self.notifies@.len() as int) =~= self.notifies@);
        }
        out.append("]}");
        out
    }
}

/// One layer annotation, in its wire form.
pub struct ResponseLayerItem {
    /// Display name of the layer.
    pub name: String,
    /// Human-readable description.
    pub description: String,
}

/// The JSON body of one layer record.
pub open spec fn layer_item_json(name: Seq<char>, description: Seq<char>) -> Seq<char> {
    "{\"name\":"@ + json_string(name) + ",\"description\":"@ + json_string(description) + "}"@
}

impl ResponseLayerItem {
    /// Converts an engine record.
    pub fn from(value: Layer) -> (r: Self)
        ensures
            r.name@ == value.locator@,
            r.description@ == value.description@,
    {
        ResponseLayerItem { name: value.locator, description: value.description }
    }

    /// Serializes the response body.
    pub fn to_json(&self) -> (r: String)
        ensures
            r@ == layer_item_json(self.name@, self.description@),
    {
        let mut out = String::from_str("{\"name\":");
        append_json_string(&mut out, self.name.as_str());
        out.append(",\"description\":");
        append_json_string(&mut out, self.description.as_str());
        out.append("}");
        out
    }
}

/// The rendered JSON of each layer item, in order.
pub open spec fn layer_items_rendered(s: Seq<ResponseLayerItem>) -> Seq<Seq<char>> {
    s.map_values(|it: ResponseLayerItem| layer_item_json(it.name@, it.description@))
}

/// A run of layer annotations, in its wire form.
pub struct LayerList {
    /// The records, in catalog order.
    pub layers: Vec<ResponseLayerItem>,
}

/// The JSON body of a layer list response.
pub open spec fn layer_list_json(s: Seq<ResponseLayerItem>) -> Seq<char> {
    "{\"layers\":["@ + json_list(layer_items_rendered(s)) + "]}"@
}

impl LayerList {
    /// Converts a run of engine records, keeping their order.
    pub fn from(v: Vec<Layer>) -> (r: Self)
        ensures
            r.layers@.len() == v@.len(),
            forall|i: int|
                0 <= i < v@.len() ==> {
                    &&& (#[trigger] r.layers@[i]).name@ == v@[i].locator@
                    &&& r.layers@[i].description@ == v@[i].description@
                },
    {
        let ghost orig: Seq<Layer> = v@;
        let mut rest = v;
        let mut out: Vec<ResponseLayerItem> = Vec::new();
        while rest.len() > 0
            invariant
                out@.len() + rest@.len() == orig.len(),
                rest@ =~= orig.skip(out@.len() as int),
                forall|i: int|
                    0 <= i < out@.len() ==> {
                        &&& (#[trigger] out@[i]).name@ == orig[i].locator@
                        &&& out@[i].description@ == orig[i].description@
                    },
            decreases rest@.len(),
        {
            proof {
                assert(orig.skip(out@.len() as int)[0] == orig[out@.len() as int]);
                assert(orig.skip(out@.len() as int).remove(0) =~= orig.skip(
                    out@.len() as int + 1,
                ));
            }
            let l = rest.remove(0);
            out.push(ResponseLayerItem::from(l));
        }
        LayerList { layers: out }
    }

    /// Serializes the response body.
    pub fn to_json(&self) -> (r: String)
        ensures
            r@ == layer_list_json(self.layers@),
    {
        let mut out = String::from_str("{\"layers\":[");
        let mut i: usize = 0;
        while i < self.layers.len()
            invariant
                i <= self.layers@.len(),
                out@ == "{\"layers\":["@ + json_list(
                    layer_items_rendered(self.layers@.take(i as int)),
                ),
            decreases self.layers@.len() - i,
        {
            if i > 0 {
                out.append(",");
            }
            let item = self.layers[i].to_json();
            out.append(item.as_str());
            proof {
                assert(layer_items_rendered(self.layers@.take(i as int + 1)).drop_last()
                    =~= layer_items_rendered(self.layers@.take(i as int)));
                assert(layer_items_rendered(self.layers@.take(i as int + 1)).last()
                    == layer_item_json(
                    self.layers@[i as int].name@,
                    self.layers@[i as int].description@,
                ));
            }
            i += 1;
        }
        proof {
            assert(self.layers@.take(self.layers@.len() as int) =~= self.layers@);
        }
        out.append("]}");
        out
    }
}

/// Holds topic data: locator and optional timestamp.
pub struct ResponseQueryItemTopic {
    /// The topic's display name.
    pub locator: String,
    /// Timestamp range will be omitted from the output if it is `None`.
    pub timestamp_range: Option<(i64, i64)>,
}

/// The JSON body of one matched topic: the range field is omitted
/// entirely, not set to null, when no range was requested.
pub open spec fn query_topic_json(locator: Seq<char>, range: Option<(i64, i64)>) -> Seq<char> {
    "{\"locator\":"@ + json_string(locator) + (match range {
        None => Seq::<char>::empty(),
        Some(p) => ",\"timestamp_range\":["@ + dec_int_of(p.0 as int) + ","@ + dec_int_of(
            p.1 as int,
        ) + "]"@,
    }) + "}"@
}

impl ResponseQueryItemTopic {
    /// Converts a resolved locator, carrying its range over only when one
    /// was supplied.
    pub fn from(value: TopicResourceLocator) -> (r: Self)
        ensures
            r.locator@ == value.name@,
            r.timestamp_range == (match value.timestamp_range {
                Some(tr) => Some((tr.start, tr.end)),
                None => None::<(i64, i64)>,
            }),
    {
        ResponseQueryItemTopic {
            locator: value.name,
            timestamp_range: match value.timestamp_range {
                Some(tr) => Some((tr.start, tr.end)),
                None => None,
            },
        }
    }

    /// Serializes the response body.
    pub fn to_json(&self) -> (r: String)
        ensures
            r@ == query_topic_json(self.locator@, self.timestamp_range),
    {
        let mut out = String::from_str("{\"locator\":");
        append_json_string(&mut out, self.locator.as_str());
        match &self.timestamp_range {
            None => {},
            Some(p) => {
                out.append(",\"timestamp_range\":[");
                let a = i64_to_dec(p.0);
                out.append(a.as_str());
                out.append(",");
                let b = i64_to_dec(p.1);
                out.append(b.as_str());
                out.append("]");
            },
        }
        out.append("}");
        out
    }
}

/// The rendered JSON of each matched topic, in order.
pub open spec fn query_topics_rendered(s: Seq<ResponseQueryItemTopic>) -> Seq<Seq<char>> {
    s.map_values(|it: ResponseQueryItemTopic| query_topic_json(it.locator@, it.timestamp_range))
}

/// One sequence group of a query result, in its wire form.
pub struct ResponseQueryItem {
    /// The owning sequence's display name.
    pub sequence: String,
    /// The matched topics, in first-seen order.
    pub topics: Vec<ResponseQueryItemTopic>,
}

/// The JSON body of one sequence group.
pub open spec fn query_item_json(
    sequence: Seq<char>,
    topics: Seq<ResponseQueryItemTopic>,
) -> Seq<char> {
    "{\"sequence\":"@ + json_string(sequence) + ",\"topics\":["@ + json_list(
        query_topics_rendered(topics),
    ) + "]}"@
}

impl ResponseQueryItem {
    /// Converts a resolved group, keeping the first-seen topic order.
    pub fn from(value: SequenceTopicGroup) -> (r: Self)
        ensures
            r.sequence@ == value.sequence.name@,
            r.topics@.len() == value.topics@.len(),
            forall|i: int|
                0 <= i < value.topics@.len() ==> {
                    &&& (#[trigger] r.topics@[i]).locator@ == value.topics@[i].name@
                    &&& r.topics@[i].timestamp_range == (match value.topics@[i].timestamp_range {
                        Some(tr) => Some((tr.start, tr.end)),
                        None => None::<(i64, i64)>,
                    })
                },
    {
        let ghost orig: Seq<TopicResourceLocator> = value.topics@;
        let mut rest = value.topics;
        let mut out: Vec<ResponseQueryItemTopic> = Vec::new();
        while rest.len() > 0
            invariant
                out@.len() + rest@.len() == orig.len(),
                rest@ =~= orig.skip(out@.len() as int),
                forall|i: int|
                    0 <= i < out@.len() ==> {
                        &&& (#[trigger] out@[i]).locator@ == orig[i].name@
                        &&& out@[i].timestamp_range == (match orig[i].timestamp_range {
                            Some(tr) => Some((tr.start, tr.end)),
                            None => None::<(i64, i64)>,
                        })
                    },
            decreases rest@.len(),
        {
            proof {
                assert(orig.skip(out@.len() as int)[0] == orig[out@.len() as int]);
                assert(orig.skip(out@.len() as int).remove(0) =~= orig.skip(
                    out@.len() as int + 1,
                ));
            }
            let t = rest.remove(0);
            out.push(ResponseQueryItemTopic::from(t));
        }
        ResponseQueryItem { sequence: value.sequence.name, topics: out }
    }

    /// Serializes the response body.
    pub fn to_json(&self) -> (r: String)
        ensures
            r@ == query_item_json(self.sequence@, self.topics@),
    {
        let mut out = String::from_str("{\"sequence\":");
        append_json_string(&mut out, self.sequence.as_str());
        out.append(",\"topics\":[");
        let mut i: usize = 0;
        while i < self.topics.len()
            invariant
                i <= self.topics@.len(),
                out@ == "{\"sequence\":"@ + json_string(self.sequence@) + ",\"topics\":["@
                    + json_list(query_topics_rendered(self.topics@.take(i as int))),
            decreases self.topics@.len() - i,
        {
            if i > 0 {
                out.append(",");
            }
            let item = self.topics[i].to_json();
            out.append(item.as_str());
            proof {
                assert(query_topics_rendered(self.topics@.take(i as int + 1)).drop_last()
                    =~= query_topics_rendered(self.topics@.take(i as int)));
                assert(query_topics_rendered(self.topics@.take(i as int + 1)).last()
                    == query_topic_json(
                    self.topics@[i as int].locator@,
                    self.topics@[i as int].timestamp_range,
                ));
            }
            i += 1;
        }
        proof {
            assert(self.topics@.take(self.topics@.len() as int) =~= self.topics@);
        }
        out.append("]}");
        out
    }
}

/// The rendered JSON of each sequence group, in order.
pub open spec fn query_items_rendered(s: Seq<ResponseQueryItem>) -> Seq<Seq<char>> {
    s.map_values(|it: ResponseQueryItem| query_item_json(it.sequence@, it.topics@))
}

/// A whole query result, in its wire form.
pub struct Query {
    /// One entry per matched sequence, in first-seen order.
    pub items: Vec<ResponseQueryItem>,
}

/// The JSON body of a query response.
pub open spec fn query_json(s: Seq<ResponseQueryItem>) -> Seq<char> {
    "{\"items\":["@ + json_list(query_items_rendered(s)) + "]}"@
}

impl Query {
    /// Converts a resolved group set, keeping the first-seen order of
    /// sequences.
    pub fn from(value: SequenceTopicGroupSet) -> (r: Self)
        ensures
            r.items@.len() == value.groups@.len(),
            forall|i: int|
                0 <= i < value.groups@.len() ==> {
                    &&& (#[trigger] r.items@[i]).sequence@ == value.groups@[i].sequence.name@
                    &&& r.items@[i].topics@.len() == value.groups@[i].topics@.len()
                    &&& forall|j: int|
                        0 <= j < value.groups@[i].topics@.len() ==> {
                            &&& (#[trigger] r.items@[i].topics@[j]).locator@
                                == value.groups@[i].topics@[j].name@
                            &&& r.items@[i].topics@[j].timestamp_range == (
                            match value.groups@[i].topics@[j].timestamp_range {
                                Some(tr) => Some((tr.start, tr.end)),
                                None => None::<(i64, i64)>,
                            })
                        }
                },
    {
        let ghost orig: Seq<SequenceTopicGroup> = value.groups@;
        let mut rest = value.into_groups();
        let mut out: Vec<ResponseQueryItem> = Vec::new();
        while rest.len() > 0
            invariant
                out@.len() + rest@.len() == orig.len(),
                rest@ =~= orig.skip(out@.len() as int),
                forall|i: int|
                    0 <= i < out@.len() ==> {
                        &&& (#[trigger] out@[i]).sequence@ == orig[i].sequence.name@
                        &&& out@[i].topics@.len() == orig[i].topics@.len()
                        &&& forall|j: int|
                            0 <= j < orig[i].topics@.len() ==> {
                                &&& (#[trigger] out@[i].topics@[j]).locator@
                                    == orig[i].topics@[j].name@
                                &&& out@[i].topics@[j].timestamp_range == (
                                match orig[i].topics@[j].timestamp_range {
                                    Some(tr) => Some((tr.start, tr.end)),
                                    None => None::<(i64, i64)>,
                                })
                            }
                    },
            decreases rest@.len(),
        {
            proof {
                assert(orig.skip(out@.len() as int)[0] == orig[out@.len() as int]);
                assert(orig.skip(out@.len() as int).remove(0) =~= orig.skip(
                    out@.len() as int + 1,
                ));
            }
            let g = rest.remove(0);
            out.push(ResponseQueryItem::from(g));
        }
        Query { items: out }
    }

    /// Serializes the response body.
    pub fn to_json(&self) -> (r: String)
        ensures
            r@ == query_json(self.items@),
    {
        let mut out = String::from_str("{\"items\":[");
        let mut i: usize = 0;
        while i < self.items.len()
            invariant
                i <= self.items@.len(),
                out@ == "{\"items\":["@ + json_list(query_items_rendered(self.items@.take(i as int))),
            decreases self.items@.len() - i,
        {
            if i > 0 {
                out.append(",");
            }
            let item = self.items[i].to_json();
            out.append(item.as_str());
            proof {
                assert(query_items_rendered(self.items@.take(i as int + 1)).drop_last()
                    =~= query_items_rendered(self.items@.take(i as int)));
                assert(query_items_rendered(self.items@.take(i as int + 1)).last()
                    == query_item_json(
                    self.items@[i as int].sequence@,
                    self.items@[i as int].topics@,
                ));
            }
            i += 1;
        }
        proof {
            assert(self.items@.take(self.items@.len() as int) =~= self.items@);
        }
        out.append("]}");
        out
    }
}

/// The self-describing envelope of one streamed result: the action name
/// beside its payload.
pub open spec fn envelope_json(action: Seq<char>, payload: Seq<char>) -> Seq<char> {
    "{\"action\":"@ + json_string(action) + ",\"response\":"@ + payload + "}"@
}

/// Wraps an already-rendered payload with the action name, so each
/// streamed result describes itself.
pub fn envelope(action: &str, payload: &str) -> (r: String)
    ensures
        r@ == envelope_json(action@, payload@),
{
    let mut out = String::from_str("{\"action\":");
    append_json_string(&mut out, action);
    out.append(",\"response\":");
    out.append(payload);
    out.append("}");
    out
}

} // verus!
