//! The waiter registry: a mapping from an encoded id (the cache file name) to
//! the ordered list of callers waiting for that download to finish. An entry
//! is drained as a whole, exactly once, when the final file appears.
use vstd::prelude::*;

use crate::bytes::{bytes_eq, clone_bytes};

verus! {

/// One registry entry: the encoded id and the waiters queued for it.
pub struct Entry {
    pub key: Vec<u8>,
    pub waiters: Vec<u64>,
}

/// Key-to-waiter-list mapping with unique keys.
pub struct Registry {
    entries: Vec<Entry>,
}

impl Registry {
    /// Keys are pairwise distinct, so each id has exactly one waiter list.
    pub closed spec fn wf(self) -> bool {
        forall|a: int, b: int|
            #![trigger self.entries@[a], self.entries@[b]]
            0 <= a < self.entries@.len() && 0 <= b < self.entries@.len() && a != b
                ==> self.entries@[a].key@ != self.entries@[b].key@
    }

    /// Whether some caller is registered for the id encoded as `k`.
    pub closed spec fn contains_key(self, k: Seq<u8>) -> bool {
        exists|i: int| 0 <= i < self.entries@.len() && self.entries@[i].key@ == k
    }

    /// The waiter list registered for `k`.
    pub closed spec fn waiters_of(self, k: Seq<u8>) -> Seq<u64> {
        let i = choose|i: int| 0 <= i < self.entries@.len() && self.entries@[i].key@ == k;
        self.entries@[i].waiters@
    }

    proof fn lemma_props(&self)
        requires
            self.wf(),
        ensures
            forall|i: int|
                0 <= i < self.entries@.len() ==> self.contains_key(#[trigger] self.entries@[i].key@)
                    && self.waiters_of(self.entries@[i].key@) == self.entries@[i].waiters@,
    {
        assert forall|i: int| 0 <= i < self.entries@.len() implies self.contains_key(
            self.entries@[i].key@,
        ) && self.waiters_of(self.entries@[i].key@) == self.entries@[i].waiters@ by {
            let k = self.entries@[i].key@;
            assert(0 <= i < self.entries@.len() && self.entries@[i].key@ == k);
            let j = choose|j: int|
                0 <= j < self.entries@.len() && self.entries@[j].key@ == k;
            if i != j {
                assert(self.entries@[i].key@ != self.entries@[j].key@);
            }
        }
    }

    /// An empty registry: nobody waits for anything.
    pub fn new() -> (r: Registry)
        ensures
            r.wf(),
            forall|k: Seq<u8>| !r.contains_key(k),
    {
        Registry { entries: Vec::new() }
    }

    fn find(&self, key: &Vec<u8>) -> (r: Option<usize>)
        ensures
            match r {
                Some(i) => i < self.entries@.len() && self.entries@[i as int].key@ == key@,
                None => !self.contains_key(key@),
            },
    {
        let mut i: usize = 0;
        while i < self.entries.len()
            invariant
                i <= self.entries@.len(),
                forall|j: int| 0 <= j < i ==> self.entries@[j].key@ != key@,
            decreases self.entries@.len() - i,
        {
            if bytes_eq(&self.entries[i].key, key) {
                return Some(i);
            }
            i = i + 1;
        }
        None
    }

    /// Queue waiter `w` for the id encoded as `key`; every earlier waiter for
    /// that id and every other id's list is kept as it was.
    pub fn register(&mut self, key: &Vec<u8>, w: u64)
        requires
            old(self).wf(),
        ensures
            final(self).wf(),
            final(self).contains_key(key@),
            final(self).waiters_of(key@) == if old(self).contains_key(key@) {
                old(self).waiters_of(key@).push(w)
            } else {
                seq![w]
            },
            forall|k: Seq<u8>|
                k != key@ ==> (#[trigger] final(self).contains_key(k) <==> old(self).contains_key(
                    k,
                )),
            forall|k: Seq<u8>|
                k != key@ && old(self).contains_key(k) ==> #[trigger] final(self).waiters_of(k)
                    == old(self).waiters_of(k),
    {
        proof {
            old(self).lemma_props();
        }
        match self.find(key) {
            Some(i) => {
                let mut e = self.entries.remove(i);
                e.waiters.push(w);
                let ghost ge = e;
                self.entries.insert(i, e);
                proof {
                    assert(self.entries@ =~= old(self).entries@.update(i as int, ge));
                    self.lemma_props();
                    assert(old(self).entries@[i as int].key@ == key@);
                    assert(old(self).waiters_of(key@) == old(self).entries@[i as int].waiters@);
                    assert(ge.waiters@ == old(self).entries@[i as int].waiters@.push(w));
                    assert(self.entries@[i as int].key@ == key@);
                    assert(self.contains_key(key@));
                    assert(self.waiters_of(key@) == ge.waiters@);
                    assert forall|k: Seq<u8>|
                        k != key@ && old(self).contains_key(k) implies self.contains_key(k)
                        && self.waiters_of(k) == old(self).waiters_of(k) by {
                        let j = choose|j: int|
                            0 <= j < old(self).entries@.len() && old(self).entries@[j].key@ == k;
                        assert(self.entries@[j] == old(self).entries@[j]);
                    }
                    assert forall|k: Seq<u8>|
                        k != key@ && self.contains_key(k) implies old(self).contains_key(
                        k,
                    ) by {
                        let j = choose|j: int|
                            0 <= j < self.entries@.len() && self.entries@[j].key@ == k;
                        assert(old(self).entries@[j] == self.entries@[j]);
                    }
                }
            },
            None => {
                let mut ws: Vec<u64> = Vec::new();
                ws.push(w);
                let k2 = clone_bytes(key);
                let ghost ge = Entry { key: k2, waiters: ws };
                self.entries.push(Entry { key: k2, waiters: ws });
                proof {
                    assert(self.entries@ =~= old(self).entries@.push(ge));
                    self.lemma_props();
                    assert(self.entries@[old(self).entries@.len() as int].key@ == key@);
                    assert(self.contains_key(key@));
                    assert(ge.waiters@ =~= seq![w]);
                    assert(self.waiters_of(key@) == ge.waiters@);
                    assert forall|k: Seq<u8>|
                        k != key@ && old(self).contains_key(k) implies self.contains_key(k)
                        && self.waiters_of(k) == old(self).waiters_of(k) by {
                        let j = choose|j: int|
                            0 <= j < old(self).entries@.len() && old(self).entries@[j].key@ == k;
                        assert(self.entries@[j] == old(self).entries@[j]);
                    }
                    assert forall|k: Seq<u8>|
                        k != key@ && self.contains_key(k) implies old(self).contains_key(
                        k,
                    ) by {
                        let j = choose|j: int|
                            0 <= j < self.entries@.len() && self.entries@[j].key@ == k;
                        assert(old(self).entries@[j] == self.entries@[j]);
                    }
                }
            },
        }
    }

    /// Remove the id's whole waiter list and hand it out in one step: the
    /// caller notifies every waiter, and no entry for the id remains.
    pub fn drain(&mut self, key: &Vec<u8>) -> (r: Option<Vec<u64>>)
        requires
            old(self).wf(),
        ensures
            final(self).wf(),
            !final(self).contains_key(key@),
            old(self).contains_key(key@) ==> (r matches Some(ws) && ws@ == old(self).waiters_of(
                key@,
            )),
            !old(self).contains_key(key@) ==> r is None && *final(self) == *old(self),
            forall|k: Seq<u8>|
                k != key@ ==> (#[trigger] final(self).contains_key(k) <==> old(self).contains_key(
                    k,
                )),
            forall|k: Seq<u8>|
                k != key@ && old(self).contains_key(k) ==> #[trigger] final(self).waiters_of(k)
                    == old(self).waiters_of(k),
    {
        proof {
            old(self).lemma_props();
        }
        match self.find(key) {
            Some(i) => {
                let e = self.entries.remove(i);
                proof {
                    self.lemma_props();
                    assert forall|k: Seq<u8>| self.contains_key(k) implies old(
                        self,
                    ).contains_key(k) && k != key@ && self.waiters_of(k) == old(
                        self,
                    ).waiters_of(k) by {
                        let j = choose|j: int|
                            0 <= j < self.entries@.len() && self.entries@[j].key@ == k;
                        if j < i {
                            assert(old(self).entries@[j] == self.entries@[j]);
                        } else {
                            assert(old(self).entries@[j + 1] == self.entries@[j]);
                            old(self).lemma_props();
                        }
                    }
                    assert forall|k: Seq<u8>|
                        k != key@ && old(self).contains_key(k) implies self.contains_key(
                        k,
                    ) by {
                        let j = choose|j: int|
                            0 <= j < old(self).entries@.len() && old(self).entries@[j].key@ == k;
                        if j < i {
                            assert(self.entries@[j] == old(self).entries@[j]);
                        } else {
                            assert(self.entries@[j - 1] == old(self).entries@[j]);
                        }
                    }
                }
                Some(e.waiters)
            },
            None => None,
        }
    }
}

} // verus!
