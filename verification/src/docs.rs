//! The dispatcher's view of the open documents: for each URI, the version
//! the client last established. Document text is an external collaborator's
//! business; the core only tracks identity and revision, which is what the
//! ordering guarantee between edits and queries is stated over.

use vstd::prelude::*;

verus! {

/// One tracked document.
#[derive(Debug)]
pub struct DocEntry {
    pub uri: String,
    pub revision: i32,
}

/// The revision recorded under a URI: the last entry whose URI matches.
/// With pairwise-distinct URIs it is the only one.
pub open spec fn doc_lookup(s: Seq<DocEntry>, uri: Seq<char>) -> Option<i32>
    decreases s.len(),
{
    if s.len() == 0 {
        None
    } else if s.last().uri@ == uri {
        Some(s.last().revision)
    } else {
        doc_lookup(s.drop_last(), uri)
    }
}

/// No two entries track the same document.
pub open spec fn distinct_uris(s: Seq<DocEntry>) -> bool {
    forall|i: int, j: int| 0 <= i < j < s.len() ==> s[i].uri@ != s[j].uri@
}

proof fn lemma_doc_absent(s: Seq<DocEntry>, uri: Seq<char>)
    requires
        forall|i: int| 0 <= i < s.len() ==> s[i].uri@ != uri,
    ensures
        doc_lookup(s, uri) is None,
    decreases s.len(),
{
    if s.len() > 0 {
        lemma_doc_absent(s.drop_last(), uri);
    }
}

proof fn lemma_doc_at(s: Seq<DocEntry>, uri: Seq<char>, i: int)
    requires
        distinct_uris(s),
        0 <= i < s.len(),
        s[i].uri@ == uri,
    ensures
        doc_lookup(s, uri) == Some(s[i].revision),
    decreases s.len(),
{
    if i == s.len() - 1 {
    } else {
        assert(s[i].uri@ != s.last().uri@);
        lemma_doc_at(s.drop_last(), uri, i);
    }
}

proof fn lemma_doc_push(s: Seq<DocEntry>, e: DocEntry, uri: Seq<char>)
    ensures
        doc_lookup(s.push(e), uri) == (if e.uri@ == uri {
            Some(e.revision)
        } else {
            doc_lookup(s, uri)
        }),
{
    assert(s.push(e).drop_last() =~= s);
    assert(s.push(e).last() == e);
}

proof fn lemma_doc_remove(s: Seq<DocEntry>, i: int, uri: Seq<char>)
    requires
        distinct_uris(s),
        0 <= i < s.len(),
    ensures
        doc_lookup(s.remove(i), uri) == (if s[i].uri@ == uri {
            None::<i32>
        } else {
            doc_lookup(s, uri)
        }),
    decreases s.len(),
{
    let t = s.remove(i);
    if i == s.len() - 1 {
        assert(t =~= s.drop_last());
        if s[i].uri@ == uri {
            assert forall|j: int| 0 <= j < t.len() implies t[j].uri@ != uri by {
                assert(s[j].uri@ != s[i].uri@);
            }
            lemma_doc_absent(t, uri);
        }
    } else {
        assert(t.last() == s.last());
        assert(t.drop_last() =~= s.drop_last().remove(i));
        if s.last().uri@ == uri {
            assert(s[i].uri@ != s.last().uri@);
        } else {
            assert(distinct_uris(s.drop_last()));
            lemma_doc_remove(s.drop_last(), i, uri);
        }
    }
}

proof fn lemma_doc_distinct_remove(s: Seq<DocEntry>, i: int)
    requires
        distinct_uris(s),
        0 <= i < s.len(),
    ensures
        distinct_uris(s.remove(i)),
{
    let t = s.remove(i);
    assert forall|a: int, b: int| 0 <= a < b < t.len() implies t[a].uri@ != t[b].uri@ by {
        let a0: int = if a < i {
            a
        } else {
            a + 1
        };
        let b0: int = if b < i {
            b
        } else {
            b + 1
        };
        assert(t[a] == s[a0]);
        assert(t[b] == s[b0]);
        assert(s[a0].uri@ != s[b0].uri@);
    }
}

/// The revision table over the open documents.
#[derive(Debug)]
pub struct DocStore {
    docs: Vec<DocEntry>,
}

impl DocStore {
    /// The tracked URIs are pairwise distinct.
    pub closed spec fn wf(self) -> bool {
        distinct_uris(self.docs@)
    }

    /// The version last established for a document, if it is tracked.
    pub closed spec fn spec_revision(self, uri: Seq<char>) -> Option<i32> {
        doc_lookup(self.docs@, uri)
    }

    /// An empty store.
    pub fn new() -> (d: DocStore)
        ensures
            d.wf(),
            forall|u: Seq<char>| d.spec_revision(u) is None,
    {
        let d = DocStore { docs: Vec::new() };
        proof {
            assert forall|u: Seq<char>| d.spec_revision(u) is None by {
                assert(d.docs@.len() == 0);
            }
        }
        d
    }

    fn find_index(&self, uri: &String) -> (r: Option<usize>)
        ensures
            match r {
                Some(i) => i < self.docs@.len() && self.docs@[i as int].uri@ == uri@,
                None => forall|j: int| 0 <= j < self.docs@.len() ==> self.docs@[j].uri@ != uri@,
            },
    {
        let mut i: usize = 0;
        while i < self.docs.len()
            invariant
                i <= self.docs@.len(),
                forall|j: int| 0 <= j < i ==> self.docs@[j].uri@ != uri@,
            decreases self.docs@.len() - i,
        {
            if self.docs[i].uri == *uri {
                return Some(i);
            }
            i = i + 1;
        }
        None
    }

    /// The version last established for a document.
    pub fn revision_of(&self, uri: &String) -> (r: Option<i32>)
        requires
            self.wf(),
        ensures
            r == self.spec_revision(uri@),
    {
        let found = self.find_index(uri);
        proof {
            match found {
                Some(i) => lemma_doc_at(self.docs@, uri@, i as int),
                None => lemma_doc_absent(self.docs@, uri@),
            }
        }
        match found {
            Some(i) => Some(self.docs[i].revision),
            None => None,
        }
    }

    /// Records that the client established `version` for `uri`: a `didOpen`
    /// or `didChange` applied in receipt order. Every other document keeps
    /// its revision.
    pub fn record(&mut self, uri: String, version: i32)
        requires
            old(self).wf(),
        ensures
            final(self).wf(),
            forall|u: Seq<char>|
                final(self).spec_revision(u) == (if u == uri@ {
                    Some(version)
                } else {
                    old(self).spec_revision(u)
                }),
    {
        let ghost s = self.docs@;
        let found = self.find_index(&uri);
        match found {
            Some(i) => {
                proof {
                    lemma_doc_distinct_remove(s, i as int);
                }
                let _ = self.docs.remove(i);
                let ghost t = s.remove(i as int);
                let e = DocEntry { uri, revision: version };
                self.docs.push(e);
                proof {
                    assert forall|j: int| 0 <= j < t.len() implies t[j].uri@ != e.uri@ by {
                        let j0: int = if j < i as int {
                            j
                        } else {
                            j + 1
                        };
                        assert(t[j] == s[j0]);
                        if j0 < i as int {
                            assert(s[j0].uri@ != s[i as int].uri@);
                        } else {
                            assert(s[i as int].uri@ != s[j0].uri@);
                        }
                    }
                    assert(distinct_uris(t.push(e)));
                    assert forall|u: Seq<char>|
                        final(self).spec_revision(u) == (if u == e.uri@ {
                            Some(version)
                        } else {
                            old(self).spec_revision(u)
                        }) by {
                        lemma_doc_remove(s, i as int, u);
                        lemma_doc_push(t, e, u);
                    }
                }
            },
            None => {
                let e = DocEntry { uri, revision: version };
                self.docs.push(e);
                proof {
                    assert forall|j: int| 0 <= j < s.len() implies s[j].uri@ != e.uri@ by {}
                    assert(distinct_uris(s.push(e)));
                    assert forall|u: Seq<char>|
                        final(self).spec_revision(u) == (if u == e.uri@ {
                            Some(version)
                        } else {
                            old(self).spec_revision(u)
                        }) by {
                        lemma_doc_push(s, e, u);
                    }
                }
            },
        }
    }

    /// Forgets a closed document. Every other document keeps its revision.
    pub fn close(&mut self, uri: &String)
        requires
            old(self).wf(),
        ensures
            final(self).wf(),
            forall|u: Seq<char>|
                final(self).spec_revision(u) == (if u == uri@ {
                    None::<i32>
                } else {
                    old(self).spec_revision(u)
                }),
    {
        let ghost s = self.docs@;
        let found = self.find_index(uri);
        match found {
            Some(i) => {
                proof {
                    lemma_doc_distinct_remove(s, i as int);
                }
                let _ = self.docs.remove(i);
                proof {
                    assert forall|u: Seq<char>|
                        final(self).spec_revision(u) == (if u == uri@ {
                            None::<i32>
                        } else {
                            old(self).spec_revision(u)
                        }) by {
                        lemma_doc_remove(s, i as int, u);
                    }
                }
            },
            None => {
                proof {
                    assert forall|u: Seq<char>|
                        final(self).spec_revision(u) == (if u == uri@ {
                            None::<i32>
                        } else {
                            old(self).spec_revision(u)
                        }) by {
                        if u == uri@ {
                            lemma_doc_absent(s, u);
                        }
                    }
                }
            },
        }
    }
}

} // verus!
