//! A plain-value view of the header chain, as anchor resolution reads it.
//!
//! The chain store itself is a collaborator; what the coordinator needs
//! from it to pick a state-sync anchor is small: the header head, the
//! genesis hash, and for each known header its parent and the first block
//! of its epoch.  The caller snapshots those into a `ChainInfo` and the
//! walk logic here is verified against it.

use vstd::prelude::*;

verus! {

/// What anchor resolution reads of one block header.
#[derive(Clone, Copy, PartialEq, Eq, Structural, Debug)]
pub struct HeaderInfo {
    pub hash: u64,
    pub prev_hash: u64,
    /// Hash of the first block of this header's epoch.
    pub epoch_first_hash: u64,
}

/// The snapshot of the header chain that a tick works against.
#[derive(Debug)]
pub struct ChainInfo {
    pub genesis_hash: u64,
    /// Hash of the header-chain head block.
    pub header_head_hash: u64,
    /// Parent hash of the header-chain head block.
    pub header_head_prev_hash: u64,
    pub headers: Vec<HeaderInfo>,
}

impl ChainInfo {
    /// Each header appears at most once.
    pub open spec fn wf(&self) -> bool {
        forall|i: int, j: int|
            0 <= i < j < self.headers@.len() ==> self.headers@[i].hash != self.headers@[j].hash
    }

    pub open spec fn spec_has(&self, hash: u64) -> bool {
        exists|i: int| 0 <= i < self.headers@.len() && self.headers@[i].hash == hash
    }

    pub open spec fn spec_index_of(&self, hash: u64) -> int {
        choose|i: int| 0 <= i < self.headers@.len() && self.headers@[i].hash == hash
    }

    pub open spec fn spec_header(&self, hash: u64) -> HeaderInfo {
        self.headers@[self.spec_index_of(hash)]
    }

    /// A header found at an index is the one the lookup yields.
    pub proof fn lemma_index_of(&self, hash: u64, i: int)
        requires
            self.wf(),
            0 <= i < self.headers@.len(),
            self.headers@[i].hash == hash,
        ensures
            self.spec_has(hash),
            self.spec_index_of(hash) == i,
    {
        assert(self.spec_has(hash));
        let j = self.spec_index_of(hash);
        assert(0 <= j < self.headers@.len() && self.headers@[j].hash == hash);
    }

    /// Look a header up by its hash.
    pub fn get_block_header(&self, hash: u64) -> (r: Option<&HeaderInfo>)
        requires
            self.wf(),
        ensures
            r is Some <==> self.spec_has(hash),
            r matches Some(h) ==> *h == self.spec_header(hash),
    {
        let n = self.headers.len();
        let mut i: usize = 0;
        while i < n
            invariant
                i <= n,
                n == self.headers@.len(),
                self.wf(),
                forall|j: int| 0 <= j < i ==> self.headers@[j].hash != hash,
            decreases n - i,
        {
            if self.headers[i].hash == hash {
                proof {
                    self.lemma_index_of(hash, i as int);
                }
                return Some(&self.headers[i]);
            }
            i = i + 1;
        }
        None
    }

    /// The hash reached from `from` by following `steps` parent links, or
    /// nothing when a header on the way is unknown.
    pub open spec fn spec_walk_back(&self, from: u64, steps: nat) -> Option<u64>
        decreases steps,
    {
        if steps == 0 {
            Some(from)
        } else if !self.spec_has(from) {
            None
        } else {
            self.spec_walk_back(self.spec_header(from).prev_hash, (steps - 1) as nat)
        }
    }

    /// Follow parent links `steps` times starting at `from`.
    pub fn walk_back(&self, from: u64, steps: u64) -> (r: Option<u64>)
        requires
            self.wf(),
        ensures
            r == self.spec_walk_back(from, steps as nat),
    {
        let mut cur: u64 = from;
        let mut remaining: u64 = steps;
        while remaining > 0
            invariant
                self.wf(),
                self.spec_walk_back(cur, remaining as nat) == self.spec_walk_back(
                    from,
                    steps as nat,
                ),
            decreases remaining,
        {
            match self.get_block_header(cur) {
                Some(h) => {
                    cur = h.prev_hash;
                },
                None => {
                    return None;
                },
            }
            remaining = remaining - 1;
        }
        Some(cur)
    }

    /// The first block of the epoch that `hash` belongs to, where `hash`
    /// is a known header.
    pub open spec fn spec_epoch_start(&self, hash: u64) -> Option<u64> {
        if self.spec_has(hash) {
            Some(self.spec_header(hash).epoch_first_hash)
        } else {
            None
        }
    }

    /// Resolve a block to the first block of its epoch.
    pub fn get_epoch_start_sync_hash(&self, hash: u64) -> (r: Option<u64>)
        requires
            self.wf(),
        ensures
            r == self.spec_epoch_start(hash),
    {
        match self.get_block_header(hash) {
            Some(h) => Some(h.epoch_first_hash),
            None => None,
        }
    }
}

} // verus!
