//! The correlation registry: correlation identifier to one-shot reply slot.
//! An entry is created when a non-blocking request is sent, fulfilled by
//! the first matching reply, and consumed at most once by the requester.
//! At most one entry exists per identifier at any time.

use vstd::prelude::*;

use crate::solmsg::SolMsg;

verus! {

/// One registry entry: a live (pending) slot when `slot` is `None`, a
/// fulfilled slot awaiting its reader when `slot` holds the reply.
pub struct CorrEntry {
    pub id: String,
    pub slot: Option<SolMsg>,
}

/// No two entries share an identifier.
pub open spec fn unique_ids(s: Seq<CorrEntry>) -> bool {
    forall|i: int, j: int|
        0 <= i < s.len() && 0 <= j < s.len() && i != j ==> s[i].id@ != s[j].id@
}

/// The map that a sequence of entries denotes.
pub open spec fn entries_map(s: Seq<CorrEntry>) -> Map<Seq<char>, Option<SolMsg>>
    decreases s.len(),
{
    if s.len() == 0 {
        Map::empty()
    } else {
        entries_map(s.drop_last()).insert(s.last().id@, s.last().slot)
    }
}

/// A key carried by no entry is not in the denoted map.
proof fn lemma_entries_map_absent(s: Seq<CorrEntry>, k: Seq<char>)
    requires
        forall|j: int| 0 <= j < s.len() ==> s[j].id@ != k,
    ensures
        !entries_map(s).contains_key(k),
    decreases s.len(),
{
    if s.len() > 0 {
        assert(forall|j: int| 0 <= j < s.drop_last().len() ==> s.drop_last()[j] == s[j]);
        lemma_entries_map_absent(s.drop_last(), k);
    }
}

/// A key carried by some entry is in the denoted map.
proof fn lemma_entries_map_present(s: Seq<CorrEntry>, i: int)
    requires
        0 <= i < s.len(),
    ensures
        entries_map(s).contains_key(s[i].id@),
    decreases s.len(),
{
    if i < s.len() - 1 {
        assert(s.drop_last()[i] == s[i]);
        lemma_entries_map_present(s.drop_last(), i);
    }
}

/// Under unique identifiers, the entry carrying a key gives its value.
proof fn lemma_entries_map_value(s: Seq<CorrEntry>, i: int)
    requires
        unique_ids(s),
        0 <= i < s.len(),
    ensures
        entries_map(s).contains_key(s[i].id@),
        entries_map(s)[s[i].id@] == s[i].slot,
    decreases s.len(),
{
    if i == s.len() - 1 {
    } else {
        assert(unique_ids(s.drop_last()));
        assert(s.drop_last()[i] == s[i]);
        lemma_entries_map_value(s.drop_last(), i);
        assert(s.last().id@ != s[i].id@);
    }
}

/// Removing the entry at `i` removes exactly its key from the denoted map.
proof fn lemma_entries_map_remove(s: Seq<CorrEntry>, i: int)
    requires
        unique_ids(s),
        0 <= i < s.len(),
    ensures
        entries_map(s.remove(i)) == entries_map(s).remove(s[i].id@),
    decreases s.len(),
{
    let k = s[i].id@;
    if i == s.len() - 1 {
        assert(s.remove(i) =~= s.drop_last());
        assert(forall|j: int| 0 <= j < s.drop_last().len() ==> s.drop_last()[j].id@ != k);
        lemma_entries_map_absent(s.drop_last(), k);
        assert(entries_map(s).remove(k) =~= entries_map(s.drop_last()));
    } else {
        assert(s.remove(i).drop_last() =~= s.drop_last().remove(i));
        assert(s.remove(i).last() == s.last());
        assert(unique_ids(s.drop_last()));
        lemma_entries_map_remove(s.drop_last(), i);
        assert(s.drop_last()[i] == s[i]);
        assert(entries_map(s.remove(i)) == entries_map(s.drop_last().remove(i)).insert(
            s.last().id@,
            s.last().slot,
        ));
        assert(s.last().id@ != k);
        assert(entries_map(s.drop_last()).remove(k).insert(s.last().id@, s.last().slot)
            =~= entries_map(s).remove(k));
    }
}

/// A concurrent map from correlation identifier to one-shot reply slot.
pub struct CorrelationRegistry {
    entries: Vec<CorrEntry>,
}

impl View for CorrelationRegistry {
    type V = Map<Seq<char>, Option<SolMsg>>;

    closed spec fn view(&self) -> Map<Seq<char>, Option<SolMsg>> {
        entries_map(self.entries@)
    }
}

impl CorrelationRegistry {
    /// The registry's internal invariant: one entry per identifier.
    pub closed spec fn wf(&self) -> bool {
        unique_ids(self.entries@)
    }

    /// Identifiers with a live (not yet fulfilled) slot.
    pub open spec fn live_ids(&self) -> Set<Seq<char>> {
        Set::new(|k: Seq<char>| self@.contains_key(k) && self@[k] is None)
    }

    /// Creates an empty registry.
    pub fn new() -> (r: Self)
        ensures
            r.wf(),
            r@ == Map::<Seq<char>, Option<SolMsg>>::empty(),
    {
        CorrelationRegistry { entries: Vec::new() }
    }

    /// Index of the entry carrying `id`, if any.
    fn find(&self, id: &String) -> (r: Option<usize>)
        requires
            self.wf(),
        ensures
            r matches Some(i) ==> i < self.entries@.len() && self.entries@[i as int].id@ == id@,
            r is None ==> !self@.contains_key(id@),
    {
        let mut i: usize = 0;
        while i < self.entries.len()
            invariant
                i <= self.entries@.len(),
                forall|j: int| 0 <= j < i ==> self.entries@[j].id@ != id@,
            decreases self.entries@.len() - i,
        {
            if self.entries[i].id == *id {
                return Some(i);
            }
            i = i + 1;
        }
        proof {
            lemma_entries_map_absent(self.entries@, id@);
        }
        None
    }

    /// Whether any entry (live or fulfilled) carries `id`.
    pub fn contains(&self, id: &str) -> (r: bool)
        requires
            self.wf(),
        ensures
            r == self@.contains_key(id@),
    {
        let key = id.to_owned();
        match self.find(&key) {
            Some(i) => {
                proof {
                    lemma_entries_map_value(self.entries@, i as int);
                }
                true
            },
            None => false,
        }
    }

    /// Whether `id` has a live slot awaiting its reply.
    pub fn contains_live(&self, id: &str) -> (r: bool)
        requires
            self.wf(),
        ensures
            r == self.live_ids().contains(id@),
    {
        let key = id.to_owned();
        match self.find(&key) {
            Some(i) => {
                proof {
                    lemma_entries_map_value(self.entries@, i as int);
                }
                self.entries[i].slot.is_none()
            },
            None => false,
        }
    }

    /// Atomically inserts a new live slot keyed by `id`. Fails, changing
    /// nothing, when `id` is already registered: the caller must choose a
    /// different identifier.
    pub fn register(&mut self, id: &str) -> (ok: bool)
        requires
            old(self).wf(),
        ensures
            final(self).wf(),
            ok == !old(self)@.contains_key(id@),
            ok ==> final(self)@ == old(self)@.insert(id@, None::<SolMsg>),
            !ok ==> final(self)@ == old(self)@,
    {
        let key: String = id.to_owned();
        match self.find(&key) {
            Some(i) => {
                proof {
                    lemma_entries_map_value(self.entries@, i as int);
                }
                false
            },
            None => {
                self.entries.push(CorrEntry { id: key, slot: None });
                proof {
                    assert(self.entries@.drop_last() =~= old(self).entries@);
                    assert forall|j: int|
                        0 <= j < old(self).entries@.len() implies old(self).entries@[j].id@
                        != id@ by {
                        lemma_entries_map_present(old(self).entries@, j);
                    }
                }
                true
            },
        }
    }

    /// Atomically fulfills the live slot for `id` with `msg` and returns
    /// whether a match occurred. A reply whose identifier has no live slot
    /// (never registered, or already fulfilled) matches nothing and the
    /// registry is unchanged: the caller drops it.
    pub fn resolve(&mut self, id: &str, msg: SolMsg) -> (matched: bool)
        requires
            old(self).wf(),
        ensures
            final(self).wf(),
            matched == old(self).live_ids().contains(id@),
            matched ==> final(self)@ == old(self)@.insert(id@, Some(msg)),
            !matched ==> final(self)@ == old(self)@,
    {
        let key: String = id.to_owned();
        match self.find(&key) {
            Some(i) => {
                proof {
                    lemma_entries_map_value(self.entries@, i as int);
                }
                if self.entries[i].slot.is_some() {
                    false
                } else {
                    let ghost pre = self.entries@;
                    proof {
                        lemma_entries_map_remove(pre, i as int);
                        pre.remove_ensures(i as int);
                        assert forall|a: int, b: int|
                            0 <= a < pre.remove(i as int).len() && 0 <= b < pre.remove(
                                i as int,
                            ).len() && a != b implies pre.remove(i as int)[a].id@ != pre.remove(
                            i as int,
                        )[b].id@ by {}
                        assert forall|j: int|
                            0 <= j < pre.remove(i as int).len() implies pre.remove(
                            i as int,
                        )[j].id@ != id@ by {}
                    }
                    let e = self.entries.remove(i);
                    let ghost mid = self.entries@;
                    self.entries.push(CorrEntry { id: e.id, slot: Some(msg) });
                    proof {
                        assert(self.entries@.drop_last() =~= mid);
                        lemma_entries_map_absent(mid, id@);
                        assert(unique_ids(self.entries@));
                        assert(entries_map(self.entries@) =~= old(self)@.insert(id@, Some(msg)));
                    }
                    true
                }
            },
            None => false,
        }
    }

    /// Removes and returns the fulfilled reply for `id`: the one-shot
    /// read. Returns `None`, changing nothing, while the slot is still
    /// live or when `id` is not registered.
    pub fn take(&mut self, id: &str) -> (r: Option<SolMsg>)
        requires
            old(self).wf(),
        ensures
            final(self).wf(),
            (old(self)@.contains_key(id@) && old(self)@[id@] is Some) ==> (r == old(self)@[id@]
                && final(self)@ == old(self)@.remove(id@)),
            !(old(self)@.contains_key(id@) && old(self)@[id@] is Some) ==> (r is None
                && final(self)@ == old(self)@),
    {
        let key: String = id.to_owned();
        match self.find(&key) {
            Some(i) => {
                proof {
                    lemma_entries_map_value(self.entries@, i as int);
                }
                if self.entries[i].slot.is_none() {
                    None
                } else {
                    let ghost pre = self.entries@;
                    proof {
                        lemma_entries_map_remove(pre, i as int);
                        pre.remove_ensures(i as int);
                        assert forall|a: int, b: int|
                            0 <= a < pre.remove(i as int).len() && 0 <= b < pre.remove(
                                i as int,
                            ).len() && a != b implies pre.remove(i as int)[a].id@ != pre.remove(
                            i as int,
                        )[b].id@ by {}
                    }
                    let e = self.entries.remove(i);
                    e.slot
                }
            },
            None => None,
        }
    }
}

/// Correlation exactly-once: a live registration is resolved by at most
/// one reply. After the first reply is recorded, the identifier has no
/// live slot left, so a second reply with the same identifier matches
/// nothing, changes nothing, and the recorded reply stays the first one.
pub proof fn lemma_correlation_exactly_once(
    reg: Map<Seq<char>, Option<SolMsg>>,
    id: Seq<char>,
    m1: SolMsg,
    m2: SolMsg,
)
    requires
        reg.contains_key(id) && reg[id] is None,
    ensures
        ({
            let after = reg.insert(id, Some(m1));
            &&& !(after.contains_key(id) && after[id] is None)
            &&& after[id] == Some(m1)
        }),
{
}

} // verus!
