//! Catchup bookkeeping: one independent sync episode per upcoming epoch.
//!
//! A validator that will track new shards in the next epoch pre-fetches
//! their state while the node keeps processing the current epoch.  Each
//! epoch boundary awaiting catchup gets its own episode, keyed by the
//! anchor hash of that epoch, created lazily the first time the chain
//! reports the boundary and never resurrected after completion.

use crate::sync_status::ShardSyncMap;
use vstd::prelude::*;

verus! {

/// One catchup episode: the anchor hash of the epoch boundary and the
/// per-shard download trackers.
#[derive(Debug)]
pub struct CatchupEntry {
    pub sync_hash: u64,
    pub shards: ShardSyncMap,
}

/// Mapping from anchor hash to catchup episode, with each anchor held at
/// most once.
#[derive(Debug)]
pub struct CatchupMap {
    pub entries: Vec<CatchupEntry>,
}

impl CatchupMap {
    /// Anchors are unique and every episode's trackers are well formed.
    pub open spec fn wf(&self) -> bool {
        &&& forall|i: int, j: int|
            0 <= i < j < self.entries@.len() ==> self.entries@[i].sync_hash
                != self.entries@[j].sync_hash
        &&& forall|i: int| 0 <= i < self.entries@.len() ==> self.entries@[i].shards.wf()
    }

    pub open spec fn spec_contains(&self, sync_hash: u64) -> bool {
        exists|i: int| 0 <= i < self.entries@.len() && self.entries@[i].sync_hash == sync_hash
    }

    pub open spec fn spec_index_of(&self, sync_hash: u64) -> int {
        choose|i: int| 0 <= i < self.entries@.len() && self.entries@[i].sync_hash == sync_hash
    }

    pub open spec fn spec_get(&self, sync_hash: u64) -> ShardSyncMap {
        self.entries@[self.spec_index_of(sync_hash)].shards
    }

    /// An anchor found at an index is the anchor the map holds there, and
    /// at no other index.
    pub proof fn lemma_index_of(&self, sync_hash: u64, i: int)
        requires
            self.wf(),
            0 <= i < self.entries@.len(),
            self.entries@[i].sync_hash == sync_hash,
        ensures
            self.spec_contains(sync_hash),
            self.spec_index_of(sync_hash) == i,
    {
        assert(self.spec_contains(sync_hash));
        let j = self.spec_index_of(sync_hash);
        assert(0 <= j < self.entries@.len() && self.entries@[j].sync_hash == sync_hash);
    }

    pub fn new() -> (r: CatchupMap)
        ensures
            r.entries@.len() == 0,
            r.wf(),
    {
        CatchupMap { entries: Vec::new() }
    }

    pub fn contains(&self, sync_hash: u64) -> (r: bool)
        ensures
            r == self.spec_contains(sync_hash),
    {
        let n = self.entries.len();
        let mut i: usize = 0;
        while i < n
            invariant
                i <= n,
                n == self.entries@.len(),
                forall|j: int| 0 <= j < i ==> self.entries@[j].sync_hash != sync_hash,
            decreases n - i,
        {
            if self.entries[i].sync_hash == sync_hash {
                return true;
            }
            i = i + 1;
        }
        false
    }

    /// The position of an anchor the map holds.
    fn index_of(&self, sync_hash: u64) -> (r: usize)
        requires
            self.wf(),
            self.spec_contains(sync_hash),
        ensures
            r < self.entries@.len(),
            r == self.spec_index_of(sync_hash),
            self.entries@[r as int].sync_hash == sync_hash,
    {
        let n = self.entries.len();
        let mut i: usize = 0;
        while i < n
            invariant
                i <= n,
                n == self.entries@.len(),
                self.wf(),
                self.spec_contains(sync_hash),
                forall|j: int| 0 <= j < i ==> self.entries@[j].sync_hash != sync_hash,
            decreases n - i,
        {
            if self.entries[i].sync_hash == sync_hash {
                proof {
                    self.lemma_index_of(sync_hash, i as int);
                }
                return i;
            }
            i = i + 1;
        }
        proof {
            let k = self.spec_index_of(sync_hash);
            assert(0 <= k < n && self.entries@[k].sync_hash == sync_hash);
        }
        unreached()
    }

    /// Read the trackers of an episode, if the map holds it.
    pub fn get(&self, sync_hash: u64) -> (r: Option<&ShardSyncMap>)
        requires
            self.wf(),
        ensures
            r is Some <==> self.spec_contains(sync_hash),
            r matches Some(m) ==> *m == self.spec_get(sync_hash),
    {
        if self.contains(sync_hash) {
            let i = self.index_of(sync_hash);
            Some(&self.entries[i].shards)
        } else {
            None
        }
    }

    /// Borrow the trackers of an episode the map holds.
    pub fn shards_mut(&mut self, sync_hash: u64) -> (r: &mut ShardSyncMap)
        requires
            old(self).wf(),
            old(self).spec_contains(sync_hash),
        ensures
            *r == old(self).spec_get(sync_hash),
            final(self).entries@ == old(self).entries@.update(
                old(self).spec_index_of(sync_hash),
                (CatchupEntry { sync_hash, shards: *final(r) }),
            ),
    {
        let i = self.index_of(sync_hash);
        &mut self.entries[i].shards
    }

    /// Fetch an episode, creating an empty one the first time its epoch
    /// boundary is reported as awaiting catchup.
    pub fn ensure_entry(&mut self, sync_hash: u64)
        requires
            old(self).wf(),
        ensures
            final(self).wf(),
            final(self).spec_contains(sync_hash),
            old(self).spec_contains(sync_hash) ==> *final(self) == *old(self),
            !old(self).spec_contains(sync_hash) ==> {
                &&& final(self).spec_get(sync_hash).entries@.len() == 0
                &&& final(self).entries@.len() == old(self).entries@.len() + 1
            },
            forall|h: u64|
                h != sync_hash ==> final(self).spec_contains(h) == old(self).spec_contains(h),
            forall|h: u64|
                h != sync_hash && old(self).spec_contains(h) ==> final(self).spec_get(h) == old(
                    self,
                ).spec_get(h),
    {
        let ghost pre = *self;
        let ghost n = self.entries@.len();
        if !self.contains(sync_hash) {
            self.entries.push(CatchupEntry { sync_hash, shards: ShardSyncMap::new() });
            proof {
                assert(self.entries@[n as int].sync_hash == sync_hash);
                self.lemma_index_of(sync_hash, n as int);
                assert forall|h: u64| h != sync_hash implies self.spec_contains(h)
                    == pre.spec_contains(h) by {
                    if pre.spec_contains(h) {
                        let k = pre.spec_index_of(h);
                        assert(self.entries@[k].sync_hash == h);
                        assert(self.spec_contains(h));
                    } else {
                        if self.spec_contains(h) {
                            let k = self.spec_index_of(h);
                            assert(0 <= k < n);
                            assert(pre.entries@[k].sync_hash == h);
                        }
                    }
                }
                assert forall|h: u64| h != sync_hash && pre.spec_contains(h) implies self.spec_get(
                    h,
                ) == pre.spec_get(h) by {
                    let k = pre.spec_index_of(h);
                    assert(self.entries@[k].sync_hash == h);
                    self.lemma_index_of(h, k);
                }
            }
        }
    }
}

/// Replacing the trackers at the index of `sync_hash` leaves every other
/// episode, and the map's shape, unchanged.
pub proof fn lemma_catchup_frame_after_update(
    pre: CatchupMap,
    post: CatchupMap,
    i: int,
    sync_hash: u64,
    shards: ShardSyncMap,
)
    requires
        pre.wf(),
        shards.wf(),
        0 <= i < pre.entries@.len(),
        pre.entries@[i].sync_hash == sync_hash,
        post.entries@ == pre.entries@.update(i, (CatchupEntry { sync_hash, shards })),
    ensures
        post.wf(),
        post.spec_contains(sync_hash),
        post.spec_get(sync_hash) == shards,
        forall|h: u64| post.spec_contains(h) == pre.spec_contains(h),
        forall|h: u64|
            h != sync_hash && pre.spec_contains(h) ==> post.spec_get(h) == pre.spec_get(h),
        post.entries@.len() == pre.entries@.len(),
{
    assert(post.entries@[i].sync_hash == sync_hash);
    post.lemma_index_of(sync_hash, i);
    assert forall|h: u64| post.spec_contains(h) == pre.spec_contains(h) by {
        if pre.spec_contains(h) {
            let k = pre.spec_index_of(h);
            assert(post.entries@[k].sync_hash == h);
            assert(post.spec_contains(h));
        } else {
            if post.spec_contains(h) {
                let k = post.spec_index_of(h);
                assert(pre.entries@[k].sync_hash == h);
            }
        }
    }
    assert forall|h: u64| h != sync_hash && pre.spec_contains(h) implies post.spec_get(h)
        == pre.spec_get(h) by {
        let k = pre.spec_index_of(h);
        assert(post.entries@[k].sync_hash == h);
        post.lemma_index_of(h, k);
        pre.lemma_index_of(h, k);
    }
}

} // verus!
