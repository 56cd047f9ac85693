use vstd::prelude::*;

use crate::engine::{Engine, topic_full_name};
use crate::errors::EngineError;
use crate::resource::{
    SequenceResourceLocator, SequenceTopicGroup, SequenceTopicGroupSet, TimestampRange,
    TopicResourceLocator, str_eq,
};

verus! {

/// One query specification: a sequence name, optionally a topic path under
/// it, and optionally a timestamp window for that topic.
pub struct QuerySpec {
    /// The sequence name, without separators.
    pub sequence: String,
    /// The topic path under the sequence, when one topic is addressed.
    pub topic: Option<String>,
    /// The requested window; absent means the entire topic.
    pub range: Option<TimestampRange>,
}

/// One resolved topic entry, as a plain view: the fully-qualified locator
/// name and the range carried over only if one was supplied.
pub open spec fn spec_entry(q: QuerySpec) -> Option<(Seq<char>, Option<TimestampRange>)> {
    match q.topic {
        Some(t) => Some((topic_full_name(q.sequence@, t@), q.range)),
        None => None,
    }
}

/// Whether a specification resolves against live state: its sequence, and
/// its topic when one is addressed.
pub open spec fn spec_resolves(e: Engine, q: QuerySpec) -> bool {
    e.has_sequence(q.sequence@) && match q.topic {
        Some(t) => e.has_topic(topic_full_name(q.sequence@, t@)),
        None => true,
    }
}

/// Whether some group carries this sequence name.
pub open spec fn groups_have(
    gs: Seq<(Seq<char>, Seq<(Seq<char>, Option<TimestampRange>)>)>,
    name: Seq<char>,
) -> bool {
    exists|i: int| 0 <= i < gs.len() && gs[i].0 == name
}

/// The position of the group carrying this sequence name.
pub open spec fn group_index(
    gs: Seq<(Seq<char>, Seq<(Seq<char>, Option<TimestampRange>)>)>,
    name: Seq<char>,
) -> int {
    choose|i: int| 0 <= i < gs.len() && gs[i].0 == name
}

/// Whether an exact locator-and-range entry is already present.
pub open spec fn entries_have(
    es: Seq<(Seq<char>, Option<TimestampRange>)>,
    e: (Seq<char>, Option<TimestampRange>),
) -> bool {
    exists|j: int| 0 <= j < es.len() && es[j] == e
}

/// Folds one specification into the groups: a new sequence opens a new
/// group at the end, a topic entry joins its sequence's group at the end,
/// and an exact duplicate entry collapses into the one already present.
pub open spec fn add_to_groups(
    gs: Seq<(Seq<char>, Seq<(Seq<char>, Option<TimestampRange>)>)>,
    name: Seq<char>,
    entry: Option<(Seq<char>, Option<TimestampRange>)>,
) -> Seq<(Seq<char>, Seq<(Seq<char>, Option<TimestampRange>)>)> {
    if groups_have(gs, name) {
        let gi = group_index(gs, name);
        match entry {
            None => gs,
            Some(e) => if entries_have(gs[gi].1, e) {
                gs
            } else {
                gs.update(gi, (gs[gi].0, gs[gi].1.push(e)))
            },
        }
    } else {
        match entry {
            None => gs.push((name, Seq::empty())),
            Some(e) => gs.push((name, seq![e])),
        }
    }
}

/// The grouping of a whole run of specifications, in first-seen order of
/// sequences and, within a sequence, first-seen order of topics.
pub open spec fn group_specs(specs: Seq<QuerySpec>) -> Seq<
    (Seq<char>, Seq<(Seq<char>, Option<TimestampRange>)>),
>
    decreases specs.len(),
{
    if specs.len() == 0 {
        Seq::empty()
    } else {
        add_to_groups(
            group_specs(specs.drop_last()),
            specs.last().sequence@,
            spec_entry(specs.last()),
        )
    }
}

/// The plain view of one built group.
pub open spec fn group_view(g: SequenceTopicGroup) -> (
    Seq<char>,
    Seq<(Seq<char>, Option<TimestampRange>)>,
) {
    (
        g.sequence.name@,
        g.topics@.map_values(|t: TopicResourceLocator| (t.name@, t.timestamp_range)),
    )
}

/// The plain view of a run of built groups.
pub open spec fn groups_view(s: Seq<SequenceTopicGroup>) -> Seq<
    (Seq<char>, Seq<(Seq<char>, Option<TimestampRange>)>),
> {
    s.map_values(|g: SequenceTopicGroup| group_view(g))
}

fn find_group(groups: &Vec<SequenceTopicGroup>, name: &str) -> (r: Option<usize>)
    ensures
        match r {
            Some(i) => i < groups@.len() && groups@[i as int].sequence.name@ == name@,
            None => !groups_have(groups_view(groups@), name@),
        },
{
    let mut i: usize = 0;
    while i < groups.len()
        invariant
            i <= groups@.len(),
            forall|j: int| 0 <= j < i ==> groups@[j].sequence.name@ != name@,
        decreases groups@.len() - i,
    {
        if str_eq(groups[i].sequence.name.as_str(), name) {
            return Some(i);
        }
        i += 1;
    }
    proof {
        assert forall|j: int|
            0 <= j < groups_view(groups@).len() implies groups_view(groups@)[j].0 != name@ by {
            assert(groups_view(groups@)[j].0 == groups@[j].sequence.name@);
        }
    }
    None
}

fn ranges_eq(a: &Option<TimestampRange>, b: &Option<TimestampRange>) -> (r: bool)
    ensures
        r == (a == b),
{
    match (a, b) {
        (None, None) => true,
        (Some(x), Some(y)) => x.start == y.start && x.end == y.end,
        _ => false,
    }
}

fn topics_contain(ts: &Vec<TopicResourceLocator>, name: &str, range: &Option<TimestampRange>) -> (r:
    bool)
    ensures
        r == entries_have(
            ts@.map_values(|t: TopicResourceLocator| (t.name@, t.timestamp_range)),
            (name@, *range),
        ),
{
    let ghost es = ts@.map_values(|t: TopicResourceLocator| (t.name@, t.timestamp_range));
    let mut i: usize = 0;
    while i < ts.len()
        invariant
            i <= ts@.len(),
            es == ts@.map_values(|t: TopicResourceLocator| (t.name@, t.timestamp_range)),
            forall|j: int| 0 <= j < i ==> es[j] != (name@, *range),
        decreases ts@.len() - i,
    {
        if str_eq(ts[i].name.as_str(), name) && ranges_eq(&ts[i].timestamp_range, range) {
            proof {
                assert(es[i as int] == (name@, *range));
            }
            return true;
        }
        proof {
            assert(es[i as int] == (ts@[i as int].name@, ts@[i as int].timestamp_range));
        }
        i += 1;
    }
    false
}

/// Resolves a run of query specifications into sequence-grouped results.
///
/// Every specification must resolve against live state: one unresolved
/// entry fails the whole call with `NotFound` and yields no partial
/// result. On success the groups stand in first-seen order of sequences,
/// topics within a group in first-seen order, exact locator-and-range
/// duplicates collapsed to one entry, and each topic carries its window
/// only if one was supplied.
#[verifier::rlimit(100)]
#[verifier::loop_isolation(false)]
pub fn resolve_query(engine: &Engine, specs: &Vec<QuerySpec>) -> (r: Result<
    SequenceTopicGroupSet,
    EngineError,
>)
    requires
        engine.wf(),
    ensures
        match r {
            Ok(set) => (forall|i: int|
                0 <= i < specs@.len() ==> spec_resolves(*engine, #[trigger] specs@[i]))
                && groups_view(set.groups@) == group_specs(specs@),
            Err(e) => e == EngineError::NotFound && (exists|i: int|
                0 <= i < specs@.len() && !spec_resolves(*engine, #[trigger] specs@[i])),
        },
{
    let mut groups: Vec<SequenceTopicGroup> = Vec::new();
    let mut i: usize = 0;
    while i < specs.len()
        invariant
            i <= specs@.len(),
            forall|j: int| 0 <= j < i ==> spec_resolves(*engine, #[trigger] specs@[j]),
            groups_view(groups@) == group_specs(specs@.take(i as int)),
            forall|x: int, y: int|
                0 <= x < y < groups@.len() ==> groups@[x].sequence.name@
                    != groups@[y].sequence.name@,
        decreases specs@.len() - i,
    {
        proof {
            assert(specs@.take(i as int + 1).drop_last() =~= specs@.take(i as int));
            assert(specs@.take(i as int + 1).last() == specs@[i as int]);
        }
        let ghost pre_view = groups_view(groups@);
        let sp = &specs[i];
        if !engine.has_sequence_named(sp.sequence.as_str()) {
            return Err(EngineError::NotFound);
        }
        match &sp.topic {
            None => {
                match find_group(&groups, sp.sequence.as_str()) {
                    Some(g) => {
                        proof {
                            assert(pre_view[g as int].0 == sp.sequence@);
                            assert(groups_have(pre_view, sp.sequence@));
                            assert(groups_view(groups@) =~~= add_to_groups(
                                pre_view,
                                sp.sequence@,
                                spec_entry(*sp),
                            ));
                        }
                    },
                    None => {
                        groups.push(
                            SequenceTopicGroup {
                                sequence: SequenceResourceLocator { name: sp.sequence.clone() },
                                topics: Vec::new(),
                            },
                        );
                        proof {
                            assert(groups_view(groups@) =~~= pre_view.push(
                                (sp.sequence@, Seq::empty()),
                            ));
                            assert(groups_view(groups@) =~~= add_to_groups(
                                pre_view,
                                sp.sequence@,
                                spec_entry(*sp),
                            ));
                        }
                        proof {
                            assert forall|x: int, y: int|
                                0 <= x < y < groups@.len() implies groups@[x].sequence.name@
                                != groups@[y].sequence.name@ by {
                                assert(pre_view[x].0 == groups@[x].sequence.name@);
                                if y == groups@.len() - 1 {
                                    assert(!groups_have(pre_view, sp.sequence@));
                                    assert(groups@[y].sequence.name@ == sp.sequence@);
                                } else {
                                    assert(pre_view[y].0 == groups@[y].sequence.name@);
                                }
                            }
                        }
                    },
                }
            },
            Some(tp) => {
                let mut full = sp.sequence.clone();
                full.append("/");
                full.append(tp.as_str());
                if !engine.has_topic_named(full.as_str()) {
                    return Err(EngineError::NotFound);
                }
                proof {
                    assert(full@ == topic_full_name(sp.sequence@, tp@));
                }
                match find_group(&groups, sp.sequence.as_str()) {
                    None => {
                        let mut ts: Vec<TopicResourceLocator> = Vec::new();
                        ts.push(TopicResourceLocator { name: full, timestamp_range: sp.range });
                        groups.push(
                            SequenceTopicGroup {
                                sequence: SequenceResourceLocator { name: sp.sequence.clone() },
                                topics: ts,
                            },
                        );
                        proof {
                            assert(groups_view(groups@) =~~= add_to_groups(
                                pre_view,
                                sp.sequence@,
                                spec_entry(*sp),
                            ));
                        }
                        proof {
                            assert forall|x: int, y: int|
                                0 <= x < y < groups@.len() implies groups@[x].sequence.name@
                                != groups@[y].sequence.name@ by {
                                assert(pre_view[x].0 == groups@[x].sequence.name@);
                                if y == groups@.len() - 1 {
                                    assert(!groups_have(pre_view, sp.sequence@));
                                    assert(groups@[y].sequence.name@ == sp.sequence@);
                                } else {
                                    assert(pre_view[y].0 == groups@[y].sequence.name@);
                                }
                            }
                        }
                    },
                    Some(g) => {
                        proof {
                            assert(pre_view[g as int].0 == sp.sequence@);
                            assert(groups_have(pre_view, sp.sequence@));
                            assert(group_index(pre_view, sp.sequence@) == g as int);
                        }
                        if !topics_contain(&groups[g].topics, full.as_str(), &sp.range) {
                            groups[g].topics.push(
                                TopicResourceLocator { name: full, timestamp_range: sp.range },
                            );
                            proof {
                                assert(groups_view(groups@) =~~= pre_view.update(
                                    g as int,
                                    (
                                        pre_view[g as int].0,
                                        pre_view[g as int].1.push(
                                            (topic_full_name(sp.sequence@, tp@), sp.range),
                                        ),
                                    ),
                                ));
                                assert(groups_view(groups@) =~~= add_to_groups(
                                    pre_view,
                                    sp.sequence@,
                                    spec_entry(*sp),
                                ));
                                assert forall|x: int, y: int|
                                    0 <= x < y < groups@.len() implies groups@[x].sequence.name@
                                    != groups@[y].sequence.name@ by {
                                    assert(pre_view[x].0 == groups@[x].sequence.name@);
                                    assert(pre_view[y].0 == groups@[y].sequence.name@);
                                }
                            }
                        } else {
                            proof {
                                assert(groups_view(groups@) =~~= add_to_groups(
                                    pre_view,
                                    sp.sequence@,
                                    spec_entry(*sp),
                                ));
                            }
                        }
                    },
                }
            },
        }
        i += 1;
    }
    proof {
        assert(specs@.take(specs@.len() as int) =~= specs@);
    }
    Ok(SequenceTopicGroupSet { groups })
}

} // verus!
