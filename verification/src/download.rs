//! Per-shard bookkeeping of a state-snapshot download.
//!
//! A `ShardSyncDownload` records, for one shard within one sync episode,
//! which pieces of the snapshot have been applied.  While the tracker
//! awaits the header, `downloads` holds the single header slot; once the
//! header has been applied, the tracker enters the parts phase and
//! `downloads` holds one slot per declared part, a count that stays fixed
//! for the life of the episode.

use vstd::prelude::*;

verus! {

/// Progress of one download slot: the snapshot header, or one state part.
#[derive(Clone, Copy, PartialEq, Eq, Structural, Debug)]
pub struct DownloadStatus {
    pub done: bool,
    pub error: bool,
}

impl DownloadStatus {
    /// A slot with nothing applied and nothing failed yet.
    pub fn new() -> (r: DownloadStatus)
        ensures
            r == (DownloadStatus { done: false, error: false }),
    {
        DownloadStatus { done: false, error: false }
    }
}

/// Phase of one shard's snapshot download.
#[derive(Clone, Copy, PartialEq, Eq, Structural, Debug)]
pub enum ShardSyncStatus {
    StateDownloadHeader,
    StateDownloadParts,
    StateDone,
}

/// Download tracker for one shard within a sync episode.
#[derive(Debug)]
pub struct ShardSyncDownload {
    pub status: ShardSyncStatus,
    pub downloads: Vec<DownloadStatus>,
}

impl ShardSyncDownload {
    /// While the header is awaited, the only slot is the header slot.
    pub open spec fn wf(&self) -> bool {
        self.status is StateDownloadHeader ==> self.downloads@.len() == 1
    }

    /// A fresh tracker: awaiting the header, header slot untouched.
    pub fn new() -> (r: ShardSyncDownload)
        ensures
            r.status is StateDownloadHeader,
            r.downloads@ =~= seq![DownloadStatus { done: false, error: false }],
            r.wf(),
    {
        let mut downloads: Vec<DownloadStatus> = Vec::new();
        downloads.push(DownloadStatus::new());
        ShardSyncDownload { status: ShardSyncStatus::StateDownloadHeader, downloads }
    }

    /// Enter the parts phase.  Only a tracker whose header slot is done may
    /// do so, and the slot count it fixes here is the declared part count.
    pub fn start_parts(&mut self, num_parts: usize)
        requires
            old(self).status is StateDownloadHeader,
            old(self).wf(),
            old(self).downloads@[0].done,
        ensures
            final(self).status is StateDownloadParts,
            final(self).downloads@.len() == num_parts,
            forall|i: int|
                0 <= i < num_parts ==> final(self).downloads@[i] == (DownloadStatus {
                    done: false,
                    error: false,
                }),
            final(self).wf(),
    {
        let mut downloads: Vec<DownloadStatus> = Vec::new();
        let mut i: usize = 0;
        while i < num_parts
            invariant
                i <= num_parts,
                downloads@.len() == i,
                forall|j: int|
                    0 <= j < i ==> downloads@[j] == (DownloadStatus { done: false, error: false }),
            decreases num_parts - i,
        {
            downloads.push(DownloadStatus::new());
            i = i + 1;
        }
        self.status = ShardSyncStatus::StateDownloadParts;
        self.downloads = downloads;
    }

    /// Mark the whole shard finished once every part slot is done.
    pub fn finish(&mut self)
        requires
            old(self).status is StateDownloadParts,
            forall|i: int| 0 <= i < old(self).downloads@.len() ==> old(self).downloads@[i].done,
        ensures
            final(self).status is StateDone,
            final(self).downloads == old(self).downloads,
            final(self).wf(),
    {
        self.status = ShardSyncStatus::StateDone;
    }

    /// True when every slot of the current phase has been applied.
    pub fn all_done(&self) -> (r: bool)
        ensures
            r == (forall|i: int| 0 <= i < self.downloads@.len() ==> self.downloads@[i].done),
    {
        let n = self.downloads.len();
        let mut i: usize = 0;
        while i < n
            invariant
                i <= n,
                n == self.downloads@.len(),
                forall|j: int| 0 <= j < i ==> self.downloads@[j].done,
            decreases n - i,
        {
            if !self.downloads[i].done {
                return false;
            }
            i = i + 1;
        }
        true
    }

    /// Record the outcome of applying a received header to chain storage.
    /// Success marks the header slot done; failure marks it errored so the
    /// driver retries.  A slot already done is never touched again, so this
    /// asks for a slot that is still open.
    pub fn apply_header_result(&mut self, ok: bool)
        requires
            old(self).status is StateDownloadHeader,
            old(self).wf(),
            !old(self).downloads@[0].done,
        ensures
            final(self).status == old(self).status,
            final(self).downloads@.len() == old(self).downloads@.len(),
            final(self).downloads@[0].done == ok,
            final(self).downloads@[0].error == (old(self).downloads@[0].error || !ok),
            final(self).wf(),
    {
        if ok {
            let slot = &mut self.downloads[0];
            slot.done = true;
        } else {
            let slot = &mut self.downloads[0];
            slot.error = true;
        }
    }

    /// Record a response that carried no header.  A duplicate late response
    /// must not erase prior success: the slot is marked errored only while
    /// it is not yet done.
    pub fn note_missing_header(&mut self)
        requires
            old(self).status is StateDownloadHeader,
            old(self).wf(),
        ensures
            final(self).status == old(self).status,
            final(self).downloads@.len() == old(self).downloads@.len(),
            old(self).downloads@[0].done ==> final(self).downloads == old(self).downloads,
            !old(self).downloads@[0].done ==> final(self).downloads@[0] == (DownloadStatus {
                done: false,
                error: true,
            }),
            final(self).wf(),
    {
        if !self.downloads[0].done {
            let slot = &mut self.downloads[0];
            slot.error = true;
        }
    }

    /// Record the outcome of applying a received part to chain storage.
    /// The part index was already validated against the fixed part count,
    /// and a slot already done is never touched again.
    pub fn apply_part_result(&mut self, part_id: usize, ok: bool)
        requires
            old(self).status is StateDownloadParts,
            part_id < old(self).downloads@.len(),
            !old(self).downloads@[part_id as int].done,
        ensures
            final(self).status == old(self).status,
            final(self).downloads@.len() == old(self).downloads@.len(),
            final(self).downloads@[part_id as int].done == ok,
            final(self).downloads@[part_id as int].error == (old(self).downloads@[part_id as int].error
                || !ok),
            forall|i: int|
                0 <= i < old(self).downloads@.len() && i != part_id ==> final(self).downloads@[i]
                    == old(self).downloads@[i],
            forall|i: int|
                0 <= i < old(self).downloads@.len() && old(self).downloads@[i].done
                    ==> final(self).downloads@[i].done,
            final(self).wf(),
    {
        if ok {
            let slot = &mut self.downloads[part_id];
            slot.done = true;
        } else {
            let slot = &mut self.downloads[part_id];
            slot.error = true;
        }
    }
}

} // verus!
