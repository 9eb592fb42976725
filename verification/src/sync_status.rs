//! The global sync phase and the per-episode shard tracker map.
//!
//! `SyncStatus` is the phase value the coordinator owns: exactly one
//! variant is active at a time, and a tick reads it once and writes it at
//! most once.  A `StateSync` phase carries the live episode: the anchor
//! hash of the epoch being fetched and one download tracker per shard.

use crate::download::ShardSyncDownload;
use vstd::prelude::*;

verus! {

/// One shard's tracker within an episode, keyed by shard id.
#[derive(Debug)]
pub struct ShardSyncEntry {
    pub shard_id: u64,
    pub download: ShardSyncDownload,
}

/// Mapping from shard id to download tracker, with each shard held at
/// most once.
#[derive(Debug)]
pub struct ShardSyncMap {
    pub entries: Vec<ShardSyncEntry>,
}

impl ShardSyncMap {
    /// Shard ids are unique and every tracker is well formed.
    pub open spec fn wf(&self) -> bool {
        &&& forall|i: int, j: int|
            0 <= i < j < self.entries@.len() ==> self.entries@[i].shard_id
                != self.entries@[j].shard_id
        &&& forall|i: int| 0 <= i < self.entries@.len() ==> self.entries@[i].download.wf()
    }

    pub open spec fn spec_contains(&self, shard_id: u64) -> bool {
        exists|i: int| 0 <= i < self.entries@.len() && self.entries@[i].shard_id == shard_id
    }

    pub open spec fn spec_index_of(&self, shard_id: u64) -> int {
        choose|i: int| 0 <= i < self.entries@.len() && self.entries@[i].shard_id == shard_id
    }

    pub open spec fn spec_get(&self, shard_id: u64) -> ShardSyncDownload {
        self.entries@[self.spec_index_of(shard_id)].download
    }

    /// A shard found at an index is the shard the map holds there, and at
    /// no other index.
    pub proof fn lemma_index_of(&self, shard_id: u64, i: int)
        requires
            self.wf(),
            0 <= i < self.entries@.len(),
            self.entries@[i].shard_id == shard_id,
        ensures
            self.spec_contains(shard_id),
            self.spec_index_of(shard_id) == i,
    {
        assert(self.spec_contains(shard_id));
        let j = self.spec_index_of(shard_id);
        assert(0 <= j < self.entries@.len() && self.entries@[j].shard_id == shard_id);
    }

    pub fn new() -> (r: ShardSyncMap)
        ensures
            r.entries@.len() == 0,
            r.wf(),
    {
        ShardSyncMap { entries: Vec::new() }
    }

    pub fn len(&self) -> (r: usize)
        ensures
            r == self.entries@.len(),
    {
        self.entries.len()
    }

    pub fn contains(&self, shard_id: u64) -> (r: bool)
        ensures
            r == self.spec_contains(shard_id),
    {
        let n = self.entries.len();
        let mut i: usize = 0;
        while i < n
            invariant
                i <= n,
                n == self.entries@.len(),
                forall|j: int| 0 <= j < i ==> self.entries@[j].shard_id != shard_id,
            decreases n - i,
        {
            if self.entries[i].shard_id == shard_id {
                return true;
            }
            i = i + 1;
        }
        false
    }

    /// The position of a shard the map holds.
    fn index_of(&self, shard_id: u64) -> (r: usize)
        requires
            self.wf(),
            self.spec_contains(shard_id),
        ensures
            r < self.entries@.len(),
            r == self.spec_index_of(shard_id),
            self.entries@[r as int].shard_id == shard_id,
    {
        let n = self.entries.len();
        let mut i: usize = 0;
        while i < n
            invariant
                i <= n,
                n == self.entries@.len(),
                self.wf(),
                self.spec_contains(shard_id),
                forall|j: int| 0 <= j < i ==> self.entries@[j].shard_id != shard_id,
            decreases n - i,
        {
            if self.entries[i].shard_id == shard_id {
                proof {
                    self.lemma_index_of(shard_id, i as int);
                }
                return i;
            }
            i = i + 1;
        }
        proof {
            let k = self.spec_index_of(shard_id);
            assert(0 <= k < n && self.entries@[k].shard_id == shard_id);
        }
        unreached()
    }

    /// Borrow the tracker of a shard the map holds.
    pub fn tracker_mut(&mut self, shard_id: u64) -> (r: &mut ShardSyncDownload)
        requires
            old(self).wf(),
            old(self).spec_contains(shard_id),
        ensures
            *r == old(self).spec_get(shard_id),
            final(self).entries@ == old(self).entries@.update(
                old(self).spec_index_of(shard_id),
                (ShardSyncEntry { shard_id, download: *final(r) }),
            ),
    {
        let i = self.index_of(shard_id);
        &mut self.entries[i].download
    }

    /// Read the tracker of a shard, if the map holds it.
    pub fn get(&self, shard_id: u64) -> (r: Option<&ShardSyncDownload>)
        requires
            self.wf(),
        ensures
            r is Some <==> self.spec_contains(shard_id),
            r matches Some(d) ==> *d == self.spec_get(shard_id),
    {
        if self.contains(shard_id) {
            let i = self.index_of(shard_id);
            Some(&self.entries[i].download)
        } else {
            None
        }
    }

    /// Set the tracker of a shard, replacing a tracker the map already
    /// holds for it.
    pub fn insert(&mut self, shard_id: u64, download: ShardSyncDownload)
        requires
            old(self).wf(),
            download.wf(),
        ensures
            final(self).wf(),
            final(self).spec_contains(shard_id),
            final(self).spec_get(shard_id) == download,
            forall|s: u64|
                s != shard_id ==> final(self).spec_contains(s) == old(self).spec_contains(s),
            forall|s: u64|
                s != shard_id && old(self).spec_contains(s) ==> final(self).spec_get(s) == old(
                    self,
                ).spec_get(s),
            final(self).entries@.len() == old(self).entries@.len() + (if old(self).spec_contains(
                shard_id,
            ) {
                0int
            } else {
                1int
            }),
    {
        let ghost pre = *self;
        let ghost n = self.entries@.len();
        if self.contains(shard_id) {
            let i = self.index_of(shard_id);
            self.entries[i].download = download;
            proof {
                lemma_frame_after_update(pre, *self, i as int, shard_id, download);
            }
        } else {
            self.entries.push(ShardSyncEntry { shard_id, download });
            proof {
                assert(self.entries@[n as int].shard_id == shard_id);
                self.lemma_index_of(shard_id, n as int);
                assert forall|s: u64| s != shard_id implies self.spec_contains(s)
                    == pre.spec_contains(s) by {
                    if pre.spec_contains(s) {
                        let k = pre.spec_index_of(s);
                        assert(self.entries@[k].shard_id == s);
                        assert(self.spec_contains(s));
                    } else {
                        if self.spec_contains(s) {
                            let k = self.spec_index_of(s);
                            assert(0 <= k < n);
                            assert(pre.entries@[k].shard_id == s);
                        }
                    }
                }
                assert forall|s: u64| s != shard_id && pre.spec_contains(s) implies self.spec_get(
                    s,
                ) == pre.spec_get(s) by {
                    let k = pre.spec_index_of(s);
                    assert(self.entries@[k].shard_id == s);
                    self.lemma_index_of(s, k);
                }
            }
        }
    }
}

/// Replacing the download at the index of `shard_id` leaves every other
/// shard's entry, and the map's shape, unchanged.
pub proof fn lemma_frame_after_update(
    pre: ShardSyncMap,
    post: ShardSyncMap,
    i: int,
    shard_id: u64,
    download: ShardSyncDownload,
)
    requires
        pre.wf(),
        download.wf(),
        0 <= i < pre.entries@.len(),
        pre.entries@[i].shard_id == shard_id,
        post.entries@ == pre.entries@.update(i, (ShardSyncEntry { shard_id, download })),
    ensures
        post.wf(),
        post.spec_contains(shard_id),
        post.spec_get(shard_id) == download,
        forall|s: u64| s != shard_id ==> post.spec_contains(s) == pre.spec_contains(s),
        forall|s: u64|
            s != shard_id && pre.spec_contains(s) ==> post.spec_get(s) == pre.spec_get(s),
        post.entries@.len() == pre.entries@.len(),
{
    assert(post.entries@[i].shard_id == shard_id);
    post.lemma_index_of(shard_id, i);
    assert forall|s: u64| s != shard_id implies post.spec_contains(s) == pre.spec_contains(s) by {
        if pre.spec_contains(s) {
            let k = pre.spec_index_of(s);
            assert(post.entries@[k].shard_id == s);
            assert(post.spec_contains(s));
        } else {
            if post.spec_contains(s) {
                let k = post.spec_index_of(s);
                assert(pre.entries@[k].shard_id == s);
            }
        }
    }
    assert forall|s: u64| s != shard_id && pre.spec_contains(s) implies post.spec_get(s)
        == pre.spec_get(s) by {
        let k = pre.spec_index_of(s);
        assert(post.entries@[k].shard_id == s);
        post.lemma_index_of(s, k);
        pre.lemma_index_of(s, k);
    }
}

/// The global sync phase.  Exactly one variant is active at a time.
#[derive(Debug)]
pub enum SyncStatus {
    /// Initial state, before the minimum peer count is reached.
    AwaitingPeers,
    /// Locally caught up.
    NoSync,
    /// Fetching headers only.
    HeaderSync,
    /// Fetching full blocks.
    BodySync { current_height: u64, highest_height: u64 },
    /// Fetching a full-state snapshot for the epoch starting at
    /// `sync_hash`.
    StateSync { sync_hash: u64, shards: ShardSyncMap },
}

impl SyncStatus {
    /// Every phase but `NoSync` counts as syncing, including the initial
    /// wait for peers.
    pub open spec fn spec_is_syncing(&self) -> bool {
        !(self is NoSync)
    }

    pub fn is_syncing(&self) -> (r: bool)
        ensures
            r == self.spec_is_syncing(),
    {
        match self {
            SyncStatus::NoSync => false,
            _ => true,
        }
    }

    /// The episode trackers, where the phase carries an episode, are well
    /// formed.
    pub open spec fn wf(&self) -> bool {
        self matches SyncStatus::StateSync { shards, .. } ==> shards.wf()
    }
}

} // verus!
