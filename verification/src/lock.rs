use vstd::prelude::*;

use crate::errors::EngineError;
use crate::resource::str_eq;

verus! {

/// One held lock: the resource's full name and the identity that holds it.
struct LockEntry {
    resource: String,
    holder: u64,
}

/// The map the entries denote: each held resource to its holder.
spec fn entries_map(s: Seq<LockEntry>) -> Map<Seq<char>, u64>
    decreases s.len(),
{
    if s.len() == 0 {
        Map::empty()
    } else {
        entries_map(s.drop_last()).insert(s.last().resource@, s.last().holder)
    }
}

/// No resource appears twice among the entries.
spec fn unique_resources(s: Seq<LockEntry>) -> bool {
    forall|i: int, j: int|
        0 <= i < j < s.len() ==> s[i].resource@ != s[j].resource@
}

proof fn lemma_map_contains(s: Seq<LockEntry>, k: Seq<char>)
    ensures
        entries_map(s).contains_key(k) <==> exists|i: int| 0 <= i < s.len() && s[i].resource@ == k,
    decreases s.len(),
{
    if s.len() > 0 {
        lemma_map_contains(s.drop_last(), k);
        if s.last().resource@ == k {
            assert(s[s.len() - 1].resource@ == k);
        } else if entries_map(s).contains_key(k) {
            let i = choose|i: int| 0 <= i < s.drop_last().len() && s.drop_last()[i].resource@ == k;
            assert(s[i].resource@ == k);
        } else {
            assert forall|i: int| 0 <= i < s.len() && s[i].resource@ == k implies false by {
                assert(i < s.len() - 1);
                assert(s.drop_last()[i].resource@ == k);
            }
        }
    }
}

proof fn lemma_map_value(s: Seq<LockEntry>, i: int)
    requires
        unique_resources(s),
        0 <= i < s.len(),
    ensures
        entries_map(s).contains_key(s[i].resource@),
        entries_map(s)[s[i].resource@] == s[i].holder,
    decreases s.len(),
{
    if i == s.len() - 1 {
    } else {
        assert(s.drop_last()[i] == s[i]);
        lemma_map_value(s.drop_last(), i);
        assert(s[i].resource@ != s.last().resource@);
    }
}

proof fn lemma_map_remove(s: Seq<LockEntry>, i: int)
    requires
        unique_resources(s),
        0 <= i < s.len(),
    ensures
        entries_map(s.remove(i)) == entries_map(s).remove(s[i].resource@),
    decreases s.len(),
{
    if i == s.len() - 1 {
        assert(s.remove(i) =~= s.drop_last());
        lemma_map_contains(s.drop_last(), s[i].resource@);
        assert(!entries_map(s.drop_last()).contains_key(s[i].resource@));
        assert(entries_map(s.drop_last()) =~= entries_map(s).remove(s[i].resource@));
    } else {
        assert(s.remove(i).drop_last() =~= s.drop_last().remove(i));
        assert(s.remove(i).last() == s.last());
        assert(forall|x: int, y: int|
            0 <= x < y < s.drop_last().len() ==> s.drop_last()[x].resource@
                != s.drop_last()[y].resource@);
        lemma_map_remove(s.drop_last(), i);
        assert(s.drop_last()[i] == s[i]);
        assert(s[i].resource@ != s.last().resource@);
        assert(entries_map(s.remove(i)) == entries_map(s.drop_last().remove(i)).insert(
            s.last().resource@,
            s.last().holder,
        ));
        assert(entries_map(s.drop_last()).remove(s[i].resource@).insert(
            s.last().resource@,
            s.last().holder,
        ) =~= entries_map(s).remove(s[i].resource@));
    }
}

/// The exclusive-access arbiter: at most one writer holds any resource, and
/// the state per resource is exactly `Unlocked` or `Locked(holder)`.
///
/// The map view sends each locked resource name to the identity of the one
/// holder; an unlocked resource is absent from the map, so a resource can
/// never be held by two writers at once.
///
/// Reclamation policy: every hold is scoped to one call or one streaming
/// scope, and the caller releases it on every exit path, cancellation
/// included. The table lives in process memory only, so no hold can
/// survive the death of its holder's process.
pub struct LockManager {
    entries: Vec<LockEntry>,
}

impl LockManager {
    /// The map of held resources to their holders.
    pub closed spec fn view(&self) -> Map<Seq<char>, u64> {
        entries_map(self.entries@)
    }

    /// Internal consistency: one entry per resource.
    pub closed spec fn wf(&self) -> bool {
        unique_resources(self.entries@)
    }

    /// A fresh manager holds nothing.
    pub fn new() -> (r: Self)
        ensures
            r.wf(),
            r@ == Map::<Seq<char>, u64>::empty(),
    {
        LockManager { entries: Vec::new() }
    }

    fn find(&self, resource: &str) -> (r: Option<usize>)
        ensures
            match r {
                Some(i) => i < self.entries@.len() && self.entries@[i as int].resource@
                    == resource@,
                None => forall|i: int|
                    0 <= i < self.entries@.len() ==> self.entries@[i].resource@ != resource@,
            },
    {
        let mut i: usize = 0;
        while i < self.entries.len()
            invariant
                i <= self.entries@.len(),
                forall|j: int| 0 <= j < i ==> self.entries@[j].resource@ != resource@,
            decreases self.entries@.len() - i,
        {
            if str_eq(self.entries[i].resource.as_str(), resource) {
                return Some(i);
            }
            i += 1;
        }
        None
    }

    /// Whether the resource is currently held by a writer.
    pub fn is_locked(&self, resource: &str) -> (r: bool)
        ensures
            r == self@.contains_key(resource@),
    {
        proof {
            lemma_map_contains(self.entries@, resource@);
        }
        self.find(resource).is_some()
    }

    /// `Unlocked -> Locked(holder)`; fails with `AlreadyLocked` when the
    /// resource is already held, by anyone, and then changes nothing.
    pub fn acquire(&mut self, resource: &str, holder: u64) -> (r: Result<(), EngineError>)
        requires
            old(self).wf(),
        ensures
            final(self).wf(),
            match r {
                Ok(()) => !old(self)@.contains_key(resource@) && final(self)@ == old(
                    self,
                )@.insert(resource@, holder),
                Err(e) => e == EngineError::AlreadyLocked && old(self)@.contains_key(resource@)
                    && final(self)@ == old(self)@,
            },
    {
        proof {
            lemma_map_contains(self.entries@, resource@);
        }
        match self.find(resource) {
            Some(_) => Err(EngineError::AlreadyLocked),
            None => {
                self.entries.push(LockEntry { resource: resource.to_owned(), holder });
                proof {
                    assert(self.entries@.drop_last() =~= old(self).entries@);
                }
                Ok(())
            },
        }
    }

    /// `Locked(holder) -> Unlocked`; fails with `NotLocked` when the
    /// resource is not held, and with `NotHolder` when a different identity
    /// holds it; a failed call changes nothing.
    pub fn release(&mut self, resource: &str, holder: u64) -> (r: Result<(), EngineError>)
        requires
            old(self).wf(),
        ensures
            final(self).wf(),
            match r {
                Ok(()) => old(self)@.contains_key(resource@) && old(self)@[resource@] == holder
                    && final(self)@ == old(self)@.remove(resource@),
                Err(e) => final(self)@ == old(self)@ && (if !old(self)@.contains_key(resource@) {
                    e == EngineError::NotLocked
                } else {
                    e == EngineError::NotHolder && old(self)@[resource@] != holder
                }),
            },
    {
        proof {
            lemma_map_contains(self.entries@, resource@);
        }
        match self.find(resource) {
            None => Err(EngineError::NotLocked),
            Some(i) => {
                proof {
                    lemma_map_value(self.entries@, i as int);
                }
                if self.entries[i].holder != holder {
                    Err(EngineError::NotHolder)
                } else {
                    proof {
                        lemma_map_remove(self.entries@, i as int);
                    }
                    self.entries.remove(i);
                    Ok(())
                }
            },
        }
    }
}

} // verus!
