//! The pending-request table: the ids of requests that were accepted for
//! asynchronous handling and not answered yet, each with its cancellation
//! flag and the document snapshot its answer must still match.

use vstd::prelude::*;
use crate::ids::RequestId;
use crate::ids::id_eq;
use crate::methods::MethodKind;

verus! {

/// Bookkeeping for one accepted, not yet answered request.
#[derive(Debug)]
pub struct PendingEntry {
    pub id: RequestId,
    pub kind: MethodKind,
    pub cancelled: bool,
    /// The document the request reads, if it reads one.
    pub doc: Option<String>,
    /// That document's version when the request was dispatched.
    pub revision: Option<i32>,
}

/// The entry registered under an id: the last one whose id matches. With
/// pairwise-distinct ids it is the only one.
pub open spec fn lookup(s: Seq<PendingEntry>, id: RequestId) -> Option<PendingEntry>
    decreases s.len(),
{
    if s.len() == 0 {
        None
    } else if id_eq(s.last().id, id) {
        Some(s.last())
    } else {
        lookup(s.drop_last(), id)
    }
}

/// No two entries answer to the same id.
pub open spec fn distinct_ids(s: Seq<PendingEntry>) -> bool {
    forall|i: int, j: int|
        0 <= i < j < s.len() ==> !id_eq(s[i].id, s[j].id)
}

proof fn lemma_lookup_absent(s: Seq<PendingEntry>, id: RequestId)
    requires
        forall|i: int| 0 <= i < s.len() ==> !id_eq(s[i].id, id),
    ensures
        lookup(s, id) is None,
    decreases s.len(),
{
    if s.len() > 0 {
        lemma_lookup_absent(s.drop_last(), id);
    }
}

proof fn lemma_lookup_at(s: Seq<PendingEntry>, id: RequestId, i: int)
    requires
        distinct_ids(s),
        0 <= i < s.len(),
        id_eq(s[i].id, id),
    ensures
        lookup(s, id) == Some(s[i]),
    decreases s.len(),
{
    if i == s.len() - 1 {
    } else {
        assert(!id_eq(s[i].id, s.last().id));
        assert(!id_eq(s.last().id, id));
        lemma_lookup_at(s.drop_last(), id, i);
    }
}

proof fn lemma_lookup_push(s: Seq<PendingEntry>, e: PendingEntry, id: RequestId)
    ensures
        lookup(s.push(e), id) == (if id_eq(e.id, id) {
            Some(e)
        } else {
            lookup(s, id)
        }),
{
    assert(s.push(e).drop_last() =~= s);
    assert(s.push(e).last() == e);
}

proof fn lemma_lookup_remove(s: Seq<PendingEntry>, i: int, id: RequestId)
    requires
        distinct_ids(s),
        0 <= i < s.len(),
    ensures
        lookup(s.remove(i), id) == (if id_eq(s[i].id, id) {
            None::<PendingEntry>
        } else {
            lookup(s, id)
        }),
    decreases s.len(),
{
    let t = s.remove(i);
    if i == s.len() - 1 {
        assert(t =~= s.drop_last());
        if id_eq(s[i].id, id) {
            assert forall|j: int| 0 <= j < t.len() implies !id_eq(t[j].id, id) by {
                assert(!id_eq(s[j].id, s[i].id));
            }
            lemma_lookup_absent(t, id);
        }
    } else {
        assert(t.last() == s.last());
        assert(t.drop_last() =~= s.drop_last().remove(i));
        if id_eq(s.last().id, id) {
            assert(!id_eq(s[i].id, s.last().id));
        } else {
            assert(distinct_ids(s.drop_last()));
            lemma_lookup_remove(s.drop_last(), i, id);
        }
    }
}

proof fn lemma_lookup_congruent(s: Seq<PendingEntry>, a: RequestId, b: RequestId)
    requires
        id_eq(a, b),
    ensures
        lookup(s, a) == lookup(s, b),
    decreases s.len(),
{
    if s.len() > 0 {
        assert(id_eq(s.last().id, a) == id_eq(s.last().id, b));
        lemma_lookup_congruent(s.drop_last(), a, b);
    }
}

proof fn lemma_distinct_remove(s: Seq<PendingEntry>, i: int)
    requires
        distinct_ids(s),
        0 <= i < s.len(),
    ensures
        distinct_ids(s.remove(i)),
{
    let t = s.remove(i);
    assert forall|a: int, b: int| 0 <= a < b < t.len() implies !id_eq(t[a].id, t[b].id) by {
        let a0: int = if a < i {
            a
        } else {
            a + 1
        };
        let b0: int = if b < i {
            b
        } else {
            b + 1
        };
        assert(t[a] == s[a0]);
        assert(t[b] == s[b0]);
        assert(!id_eq(s[a0].id, s[b0].id));
    }
}

/// The table of in-flight request ids. Keeps its ids pairwise distinct.
#[derive(Debug)]
pub struct PendingTable {
    entries: Vec<PendingEntry>,
}

impl PendingTable {
    /// The ids are pairwise distinct, so `spec_lookup` finds at most one
    /// entry per id.
    pub closed spec fn wf(self) -> bool {
        distinct_ids(self.entries@)
    }

    /// The entry registered under `id`, if any.
    pub closed spec fn spec_lookup(self, id: RequestId) -> Option<PendingEntry> {
        lookup(self.entries@, id)
    }

    /// Whether a response is still owed under `id`.
    pub open spec fn spec_contains(self, id: RequestId) -> bool {
        self.spec_lookup(id) is Some
    }

    /// How many requests are in flight.
    pub closed spec fn spec_len(self) -> nat {
        self.entries@.len()
    }

    /// Ids that `id_eq` identifies are registered together: they name the
    /// same request.
    pub proof fn lemma_respects_id_eq(self, a: RequestId, b: RequestId)
        requires
            id_eq(a, b),
        ensures
            self.spec_lookup(a) == self.spec_lookup(b),
    {
        lemma_lookup_congruent(self.entries@, a, b);
    }

    /// An empty table.
    pub fn new() -> (t: PendingTable)
        ensures
            t.wf(),
            t.spec_len() == 0,
            forall|id: RequestId| t.spec_lookup(id) is None,
    {
        let t = PendingTable { entries: Vec::new() };
        proof {
            assert forall|id: RequestId| t.spec_lookup(id) is None by {
                assert(t.entries@.len() == 0);
            }
        }
        t
    }

    /// The number of in-flight requests.
    pub fn len(&self) -> (n: usize)
        ensures
            n == self.spec_len(),
    {
        self.entries.len()
    }

    fn find_index(&self, id: &RequestId) -> (r: Option<usize>)
        ensures
            match r {
                Some(i) => i < self.entries@.len() && id_eq(self.entries@[i as int].id, *id),
                None => forall|j: int|
                    0 <= j < self.entries@.len() ==> !id_eq(self.entries@[j].id, *id),
            },
    {
        let mut i: usize = 0;
        while i < self.entries.len()
            invariant
                i <= self.entries@.len(),
                forall|j: int| 0 <= j < i ==> !id_eq(self.entries@[j].id, *id),
            decreases self.entries@.len() - i,
        {
            if self.entries[i].id.same(id) {
                return Some(i);
            }
            i = i + 1;
        }
        None
    }

    /// Whether a response is still owed under `id`.
    pub fn contains(&self, id: &RequestId) -> (r: bool)
        requires
            self.wf(),
        ensures
            r == self.spec_contains(*id),
    {
        let found = self.find_index(id);
        proof {
            match found {
                Some(i) => lemma_lookup_at(self.entries@, *id, i as int),
                None => lemma_lookup_absent(self.entries@, *id),
            }
        }
        found.is_some()
    }

    /// Registers an accepted request. Its id must not be in flight yet.
    pub fn insert(&mut self, e: PendingEntry)
        requires
            old(self).wf(),
            !old(self).spec_contains(e.id),
        ensures
            final(self).wf(),
            final(self).spec_len() == old(self).spec_len() + 1,
            forall|id2: RequestId|
                final(self).spec_lookup(id2) == (if id_eq(e.id, id2) {
                    Some(e)
                } else {
                    old(self).spec_lookup(id2)
                }),
    {
        let ghost s = self.entries@;
        self.entries.push(e);
        proof {
            assert forall|j: int| 0 <= j < s.len() implies !id_eq(s[j].id, e.id) by {
                if id_eq(s[j].id, e.id) {
                    lemma_lookup_at(s, e.id, j);
                }
            }
            assert(distinct_ids(s.push(e)));
            assert forall|id2: RequestId|
                self.spec_lookup(id2) == (if id_eq(e.id, id2) {
                    Some(e)
                } else {
                    old(self).spec_lookup(id2)
                }) by {
                lemma_lookup_push(s, e, id2);
            }
        }
    }

    /// Deregisters `id` and hands its entry back, if a response was owed
    /// under it. Every other id keeps its entry.
    pub fn remove(&mut self, id: &RequestId) -> (r: Option<PendingEntry>)
        requires
            old(self).wf(),
        ensures
            final(self).wf(),
            r == old(self).spec_lookup(*id),
            forall|id2: RequestId|
                final(self).spec_lookup(id2) == (if id_eq(*id, id2) {
                    None::<PendingEntry>
                } else {
                    old(self).spec_lookup(id2)
                }),
    {
        let ghost s = self.entries@;
        let found = self.find_index(id);
        match found {
            Some(i) => {
                let e = self.entries.remove(i);
                proof {
                    lemma_lookup_at(s, *id, i as int);
                    lemma_distinct_remove(s, i as int);
                    assert forall|id2: RequestId|
                        self.spec_lookup(id2) == (if id_eq(*id, id2) {
                            None::<PendingEntry>
                        } else {
                            old(self).spec_lookup(id2)
                        }) by {
                        lemma_lookup_remove(s, i as int, id2);
                    }
                }
                Some(e)
            },
            None => {
                proof {
                    lemma_lookup_absent(s, *id);
                    assert forall|id2: RequestId|
                        self.spec_lookup(id2) == (if id_eq(*id, id2) {
                            None::<PendingEntry>
                        } else {
                            old(self).spec_lookup(id2)
                        }) by {
                        if id_eq(*id, id2) {
                            assert forall|j: int| 0 <= j < s.len() implies !id_eq(s[j].id, id2) by {
                                assert(!id_eq(s[j].id, *id));
                            }
                            lemma_lookup_absent(s, id2);
                        }
                    }
                }
                None
            },
        }
    }

    /// Raises the cancellation flag of the entry under `id`, if one is in
    /// flight; reports whether one was. Cancellation is cooperative: the
    /// flag is read when the engine's answer comes back.
    pub fn cancel(&mut self, id: &RequestId) -> (r: bool)
        requires
            old(self).wf(),
        ensures
            final(self).wf(),
            r == old(self).spec_contains(*id),
            forall|id2: RequestId|
                final(self).spec_lookup(id2) == (if id_eq(*id, id2) {
                    match old(self).spec_lookup(*id) {
                        Some(e) => Some(PendingEntry { cancelled: true, ..e }),
                        None => None,
                    }
                } else {
                    old(self).spec_lookup(id2)
                }),
    {
        let ghost s = self.entries@;
        let found = self.find_index(id);
        match found {
            Some(i) => {
                proof {
                    lemma_lookup_at(s, *id, i as int);
                    lemma_distinct_remove(s, i as int);
                }
                let mut e = self.entries.remove(i);
                e.cancelled = true;
                let ghost e2 = e;
                self.entries.push(e);
                proof {
                    let t = s.remove(i as int);
                    assert forall|j: int| 0 <= j < t.len() implies !id_eq(t[j].id, e2.id) by {
                        let j0: int = if j < i as int {
                            j
                        } else {
                            j + 1
                        };
                        assert(t[j] == s[j0]);
                        if j0 < i as int {
                            assert(!id_eq(s[j0].id, s[i as int].id));
                        } else {
                            assert(!id_eq(s[i as int].id, s[j0].id));
                        }
                    }
                    assert(distinct_ids(t.push(e2)));
                    assert forall|id2: RequestId|
                        self.spec_lookup(id2) == (if id_eq(*id, id2) {
                            match old(self).spec_lookup(*id) {
                                Some(e3) => Some(PendingEntry { cancelled: true, ..e3 }),
                                None => None::<PendingEntry>,
                            }
                        } else {
                            old(self).spec_lookup(id2)
                        }) by {
                        lemma_lookup_remove(s, i as int, id2);
                        lemma_lookup_push(t, e2, id2);
                    }
                }
                true
            },
            None => {
                proof {
                    lemma_lookup_absent(s, *id);
                    assert forall|id2: RequestId|
                        self.spec_lookup(id2) == (if id_eq(*id, id2) {
                            match old(self).spec_lookup(*id) {
                                Some(e3) => Some(PendingEntry { cancelled: true, ..e3 }),
                                None => None::<PendingEntry>,
                            }
                        } else {
                            old(self).spec_lookup(id2)
                        }) by {
                        if id_eq(*id, id2) {
                            assert forall|j: int| 0 <= j < s.len() implies !id_eq(s[j].id, id2) by {
                                assert(!id_eq(s[j].id, *id));
                            }
                            lemma_lookup_absent(s, id2);
                        }
                    }
                }
                false
            },
        }
    }
}

} // verus!
