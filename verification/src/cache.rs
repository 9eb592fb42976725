//! An in-memory compiled-contract store.
//!
//! The contract runtime caches compiled artifacts under raw byte keys;
//! tests of that runtime use this store in place of a database.  It is a
//! plain mapping from key bytes to value bytes: `put` overwrites, `get`
//! reads back, `len` counts the distinct keys ever written.

use vstd::prelude::*;

verus! {

/// Whether two byte strings hold the same bytes.
fn bytes_eq(a: &[u8], b: &[u8]) -> (r: bool)
    ensures
        r == (a@ == b@),
{
    if a.len() != b.len() {
        proof {
            assert(a@.len() != b@.len());
        }
        return false;
    }
    let n = a.len();
    let mut i: usize = 0;
    while i < n
        invariant
            i <= n,
            n == a@.len(),
            n == b@.len(),
            forall|j: int| 0 <= j < i ==> a@[j] == b@[j],
        decreases n - i,
    {
        if a[i] != b[i] {
            return false;
        }
        i = i + 1;
    }
    proof {
        assert(a@ =~= b@);
    }
    true
}

/// An owned copy of a byte string.
fn copy_bytes(src: &[u8]) -> (r: Vec<u8>)
    ensures
        r@ == src@,
{
    let mut out: Vec<u8> = Vec::new();
    let n = src.len();
    let mut i: usize = 0;
    while i < n
        invariant
            i <= n,
            n == src@.len(),
            out@ == src@.take(i as int),
        decreases n - i,
    {
        out.push(src[i]);
        proof {
            assert(out@ =~= src@.take(i + 1));
        }
        i = i + 1;
    }
    proof {
        assert(src@.take(n as int) =~= src@);
    }
    out
}

/// One stored artifact: its key bytes and its value bytes.
#[derive(Debug)]
pub struct CacheEntry {
    pub key: Vec<u8>,
    pub value: Vec<u8>,
}

/// The in-memory store, with each key held at most once.
#[derive(Debug)]
pub struct MockCompiledContractCache {
    pub entries: Vec<CacheEntry>,
}

impl MockCompiledContractCache {
    /// Keys are unique.
    pub open spec fn wf(&self) -> bool {
        forall|i: int, j: int|
            0 <= i < j < self.entries@.len() ==> self.entries@[i].key@ != self.entries@[j].key@
    }

    pub open spec fn spec_contains(&self, key: Seq<u8>) -> bool {
        exists|i: int| 0 <= i < self.entries@.len() && self.entries@[i].key@ == key
    }

    pub open spec fn spec_index_of(&self, key: Seq<u8>) -> int {
        choose|i: int| 0 <= i < self.entries@.len() && self.entries@[i].key@ == key
    }

    pub open spec fn spec_get(&self, key: Seq<u8>) -> Seq<u8> {
        self.entries@[self.spec_index_of(key)].value@
    }

    /// A key found at an index is the key the store holds there, and at
    /// no other index.
    pub proof fn lemma_index_of(&self, key: Seq<u8>, i: int)
        requires
            self.wf(),
            0 <= i < self.entries@.len(),
            self.entries@[i].key@ == key,
        ensures
            self.spec_contains(key),
            self.spec_index_of(key) == i,
    {
        assert(self.spec_contains(key));
        let j = self.spec_index_of(key);
        assert(0 <= j < self.entries@.len() && self.entries@[j].key@ == key);
    }

    /// An empty store.
    pub fn new() -> (r: MockCompiledContractCache)
        ensures
            r.entries@.len() == 0,
            r.wf(),
    {
        MockCompiledContractCache { entries: Vec::new() }
    }

    /// The number of distinct keys stored.
    pub fn len(&self) -> (r: usize)
        ensures
            r == self.entries@.len(),
    {
        self.entries.len()
    }

    /// The position of a key the store holds, if any.
    fn find(&self, key: &[u8]) -> (r: Option<usize>)
        requires
            self.wf(),
        ensures
            r is Some <==> self.spec_contains(key@),
            r matches Some(i) ==> i < self.entries@.len() && i == self.spec_index_of(key@)
                && self.entries@[i as int].key@ == key@,
    {
        let n = self.entries.len();
        let mut i: usize = 0;
        while i < n
            invariant
                i <= n,
                n == self.entries@.len(),
                self.wf(),
                forall|j: int| 0 <= j < i ==> self.entries@[j].key@ != key@,
            decreases n - i,
        {
            if bytes_eq(self.entries[i].key.as_slice(), key) {
                proof {
                    self.lemma_index_of(key@, i as int);
                }
                return Some(i);
            }
            i = i + 1;
        }
        None
    }

    /// Store an artifact, overwriting the value of a key already held.
    pub fn put(&mut self, key: &[u8], value: &[u8])
        requires
            old(self).wf(),
        ensures
            final(self).wf(),
            final(self).spec_contains(key@),
            final(self).spec_get(key@) == value@,
            forall|k: Seq<u8>|
                k != key@ ==> final(self).spec_contains(k) == old(self).spec_contains(k),
            forall|k: Seq<u8>|
                k != key@ && old(self).spec_contains(k) ==> final(self).spec_get(k) == old(
                    self,
                ).spec_get(k),
            final(self).entries@.len() == old(self).entries@.len() + (if old(self).spec_contains(
                key@,
            ) {
                0int
            } else {
                1int
            }),
    {
        let ghost pre = *self;
        let ghost n = self.entries@.len();
        let entry = CacheEntry { key: copy_bytes(key), value: copy_bytes(value) };
        proof {
            assert(entry.key@ == key@);
        }
        match self.find(key) {
            Some(i) => {
                self.entries[i] = entry;
                proof {
                    let idx = i as int;
                    assert(self.entries@[idx].key@ == key@);
                    self.lemma_index_of(key@, idx);
                    assert forall|k: Seq<u8>| k != key@ implies self.spec_contains(k)
                        == pre.spec_contains(k) by {
                        if pre.spec_contains(k) {
                            let j = pre.spec_index_of(k);
                            assert(self.entries@[j].key@ == k);
                            assert(self.spec_contains(k));
                        } else {
                            if self.spec_contains(k) {
                                let j = self.spec_index_of(k);
                                assert(pre.entries@[j].key@ == k);
                            }
                        }
                    }
                    assert forall|k: Seq<u8>| k != key@ && pre.spec_contains(k) implies self
                        .spec_get(k) == pre.spec_get(k) by {
                        let j = pre.spec_index_of(k);
                        assert(self.entries@[j].key@ == k);
                        self.lemma_index_of(k, j);
                        pre.lemma_index_of(k, j);
                    }
                }
            },
            None => {
                self.entries.push(entry);
                proof {
                    assert(self.entries@[n as int].key@ == key@);
                    self.lemma_index_of(key@, n as int);
                    assert forall|k: Seq<u8>| k != key@ implies self.spec_contains(k)
                        == pre.spec_contains(k) by {
                        if pre.spec_contains(k) {
                            let j = pre.spec_index_of(k);
                            assert(self.entries@[j].key@ == k);
                            assert(self.spec_contains(k));
                        } else {
                            if self.spec_contains(k) {
                                let j = self.spec_index_of(k);
                                assert(0 <= j < n);
                                assert(pre.entries@[j].key@ == k);
                            }
                        }
                    }
                    assert forall|k: Seq<u8>| k != key@ && pre.spec_contains(k) implies self
                        .spec_get(k) == pre.spec_get(k) by {
                        let j = pre.spec_index_of(k);
                        assert(self.entries@[j].key@ == k);
                        self.lemma_index_of(k, j);
                    }
                }
            },
        }
    }

    /// Read an artifact's bytes back.
    pub fn get(&self, key: &[u8]) -> (r: Option<Vec<u8>>)
        requires
            self.wf(),
        ensures
            r is Some <==> self.spec_contains(key@),
            r matches Some(v) ==> v@ == self.spec_get(key@),
    {
        match self.find(key) {
            Some(i) => Some(copy_bytes(self.entries[i].value.as_slice())),
            None => None,
        }
    }
}

} // verus!
