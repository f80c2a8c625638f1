//! An in-memory store of keys, standing in for the remote bucket.
//!
//! The HTTP surface of this library never reads an object back: the only
//! observable trace of the store is the set of keys it holds and the
//! order a listing reports them in. The in-memory store therefore records
//! the keys, each held once, in the order of first creation, and lets the
//! whole request cycle run and be reasoned about without a remote
//! backend.

use vstd::prelude::*;

verus! {

/// `ks` with the first occurrence of `k` taken out, or `ks` itself when
/// `k` does not occur. Under the store's uniqueness invariant the first
/// occurrence is the only one, so this is the deletion of `k`.
pub open spec fn remove_key(ks: Seq<Seq<char>>, k: Seq<char>) -> Seq<Seq<char>>
    decreases ks.len(),
{
    if ks.len() == 0 {
        ks
    } else if ks[0] == k {
        ks.skip(1)
    } else {
        seq![ks[0]] + remove_key(ks.skip(1), k)
    }
}

/// `ks` with `k` appended when absent, and `ks` itself when present: a
/// create of an existing key overwrites its object and leaves the key
/// listing unchanged.
pub open spec fn put_key(ks: Seq<Seq<char>>, k: Seq<char>) -> Seq<Seq<char>> {
    if ks.contains(k) {
        ks
    } else {
        ks.push(k)
    }
}

/// When `k` occurs first at index `i`, removing `k` is removing index `i`.
pub proof fn lemma_remove_key_at(ks: Seq<Seq<char>>, k: Seq<char>, i: int)
    requires
        0 <= i < ks.len(),
        ks[i] == k,
        forall|j: int| 0 <= j < i ==> ks[j] != k,
    ensures
        remove_key(ks, k) == ks.remove(i),
    decreases i,
{
    if i == 0 {
        assert(ks.skip(1) =~= ks.remove(0));
    } else {
        lemma_remove_key_at(ks.skip(1), k, i - 1);
        assert(seq![ks[0]] + ks.skip(1).remove(i - 1) =~= ks.remove(i));
    }
}

/// Removing an absent key changes nothing.
pub proof fn lemma_remove_key_absent(ks: Seq<Seq<char>>, k: Seq<char>)
    requires
        !ks.contains(k),
    ensures
        remove_key(ks, k) == ks,
    decreases ks.len(),
{
    if ks.len() > 0 {
        assert(ks[0] != k);
        assert(!ks.skip(1).contains(k)) by {
            if ks.skip(1).contains(k) {
                let w = choose|w: int| 0 <= w < ks.skip(1).len() && ks.skip(1)[w] == k;
                assert(ks[w + 1] == k);
            }
        }
        lemma_remove_key_absent(ks.skip(1), k);
        assert(seq![ks[0]] + ks.skip(1) =~= ks);
    }
}

/// The in-memory store: the keys it holds, in listing order.
pub struct MemStore {
    keys: Vec<String>,
}

impl View for MemStore {
    type V = Seq<Seq<char>>;

    closed spec fn view(&self) -> Seq<Seq<char>> {
        self.keys.deep_view()
    }
}

impl MemStore {
    /// Each key is held at most once.
    pub open spec fn wf(&self) -> bool {
        forall|i: int, j: int| 0 <= i < j < self@.len() ==> self@[i] != self@[j]
    }

    /// An empty store.
    pub fn new() -> (s: MemStore)
        ensures
            s@ == Seq::<Seq<char>>::empty(),
            s.wf(),
    {
        let s = MemStore { keys: Vec::new() };
        proof {
            assert(s.keys.deep_view() =~= Seq::<Seq<char>>::empty());
        }
        s
    }

    /// Whether `key` is held.
    pub fn contains_key(&self, key: &String) -> (b: bool)
        ensures
            b == self@.contains(key@),
    {
        let mut i: usize = 0;
        while i < self.keys.len()
            invariant
                i <= self.keys.len(),
                self@.len() == self.keys.len(),
                forall|j: int| 0 <= j < i ==> self@[j] != key@,
            decreases self.keys.len() - i,
        {
            if self.keys[i] == *key {
                proof {
                    assert(self@[i as int] == key@);
                }
                return true;
            }
            i += 1;
        }
        false
    }

    /// Stores an object under `key`: the key is appended when new, and
    /// the listing is unchanged when the key already exists, as an
    /// overwrite leaves it. The body is accepted and dropped, since
    /// nothing in this store's interface reads an object back.
    pub fn put(&mut self, key: &String, content: &[u8])
        requires
            old(self).wf(),
        ensures
            final(self).wf(),
            final(self)@ == put_key(old(self)@, key@),
    {
        if !self.contains_key(key) {
            let ghost ks = self@;
            self.keys.push(key.clone());
            proof {
                assert(self.keys.deep_view() =~= ks.push(key@));
                assert forall|i: int, j: int| 0 <= i < j < self@.len() implies self@[i]
                    != self@[j] by {
                    if j == ks.len() {
                        assert(ks[i] != key@);
                    }
                }
            }
        }
    }

    /// Deletes `key`: the listing loses it when present, and is unchanged
    /// when absent, as the underlying operation is idempotent.
    pub fn delete(&mut self, key: &String)
        requires
            old(self).wf(),
        ensures
            final(self).wf(),
            final(self)@ == remove_key(old(self)@, key@),
    {
        let mut i: usize = 0;
        while i < self.keys.len()
            invariant
                *self == *old(self),
                old(self).wf(),
                i <= self.keys.len(),
                self@.len() == self.keys.len(),
                forall|j: int| 0 <= j < i ==> self@[j] != key@,
            decreases self.keys.len() - i,
        {
            if self.keys[i] == *key {
                let ghost ks = self@;
                proof {
                    assert(ks[i as int] == key@);
                }
                self.keys.remove(i);
                proof {
                    lemma_remove_key_at(ks, key@, i as int);
                    assert(self.keys.deep_view() =~= ks.remove(i as int));
                    ks.remove_ensures(i as int);
                    assert forall|a: int, b: int| 0 <= a < b < self@.len() implies self@[a]
                        != self@[b] by {
                        assert(self@[a] == if a < i { ks[a] } else { ks[a + 1] });
                        assert(self@[b] == if b < i { ks[b] } else { ks[b + 1] });
                    }
                }
                return;
            }
            i += 1;
        }
        proof {
            assert(!old(self)@.contains(key@));
            lemma_remove_key_absent(old(self)@, key@);
        }
    }

    /// The held keys, in listing order.
    pub fn list(&self) -> (keys: Vec<String>)
        ensures
            keys.deep_view() == self@,
    {
        let mut out: Vec<String> = Vec::new();
        let mut i: usize = 0;
        while i < self.keys.len()
            invariant
                i <= self.keys.len(),
                self@.len() == self.keys.len(),
                out.deep_view() == self@.take(i as int),
            decreases self.keys.len() - i,
        {
            let ghost sofar = out.deep_view();
            out.push(self.keys[i].clone());
            proof {
                assert(out.deep_view() =~= sofar.push(self@[i as int]));
                assert(sofar.push(self@[i as int]) =~= self@.take(i + 1));
            }
            i += 1;
        }
        proof {
            assert(self@.take(self@.len() as int) =~= self@);
        }
        out
    }
}

} // verus!
