//! The sync coordinator.
//!
//! `StateSyncActor` owns the global sync phase, the peer snapshot and the
//! catchup episodes.  Each tick re-evaluates whether the node needs to
//! sync, runs the phase drivers, and applies their results; network
//! responses are folded into the trackers between ticks.  The drivers,
//! chain storage and network transport are collaborators: the functions
//! here take their results as plain values and return the phase
//! transitions and outbound requests they imply.

use crate::catchup::CatchupMap;
use crate::chain_info::ChainInfo;
use crate::peer::{highest_height_peer, is_best_peer, FullPeerInfo, NetworkInfo};
use crate::sync_status::{ShardSyncMap, SyncStatus};
use vstd::prelude::*;

verus! {

/// The configuration the coordinator consults; durations are in
/// milliseconds.
#[derive(Clone, Copy, Debug)]
pub struct SyncConfig {
    /// Peers required before the first sync step runs.
    pub min_num_peers: u64,
    /// Skip the wait for peers (test configurations).
    pub skip_sync_wait: bool,
    /// A peer must be ahead by more than this before sync starts.
    pub sync_height_threshold: u64,
    /// Block sync runs only while the header head is within this horizon
    /// of the best peer height.
    pub block_header_fetch_horizon: u64,
    /// Blocks walked back from the header head before the anchor epoch is
    /// resolved, to avoid anchoring on a fork tip.
    pub state_fetch_horizon: u64,
    /// Archival nodes never purge pre-sync chain data.
    pub archive: bool,
    /// Delay before the next tick while syncing.
    pub sync_step_period_ms: u64,
    /// Delay before the next tick while caught up.
    pub sync_check_period_ms: u64,
    /// Delay between catchup passes.
    pub catchup_step_period_ms: u64,
    /// Policy hook consulted before the hysteresis result is used; a
    /// production build leaves it on.
    pub sync_enabled: bool,
}

/// What the state-sync driver reports for one run over an episode.
#[derive(Clone, Copy, PartialEq, Eq, Structural, Debug)]
pub enum StateSyncResult {
    /// Nothing changed; the episode continues as it is.
    Unchanged,
    /// Tracker state advanced.  The flag asks the coordinator to request
    /// the anchor block and its predecessor.
    Changed(bool),
    /// Every shard of the episode is done.
    Completed,
}

/// An outbound effect a tick decided on; the caller performs it.
#[derive(Debug)]
pub enum SyncAction {
    /// Forward collected challenges to the client.
    SendChallenges(Vec<u64>),
    /// Forward accepted blocks to the client.
    ProcessAcceptedBlocks(Vec<u64>),
    /// Issue one consolidated chunk request.
    RequestChunks(Vec<u64>),
    /// Ask a peer for a block by hash.
    BlockRequest { hash: u64, peer_id: u64 },
    /// Announce this node's account if its epoch is near.
    CheckSendAnnounceAccount { prev_hash: u64 },
}

/// The inbound message surface of the coordinator.
#[derive(Debug)]
pub enum StateSyncActorRequests {
    /// A requested part was delivered; the driver's outstanding-request
    /// accounting wants to know.
    ReceivedRequestedPart { part_id: u64, shard_id: u64, hash: u64 },
    /// The downstream client handle is now registered.
    ClientAddr,
    /// A fresh snapshot of the peer set.
    NetworkInfo { network_info: NetworkInfo },
    /// A state-sync response: a header or one part for one shard of one
    /// episode.
    StateResponse { shard_id: u64, sync_hash: u64, has_header: bool, part_id: Option<u64> },
}

/// Sync starts only when a peer is ahead by more than the threshold, and
/// then continues until a peer's height is no greater than the local
/// head: the hysteresis band that keeps the phase from oscillating when
/// heights are close.
pub open spec fn spec_needs_syncing(
    currently_syncing: bool,
    head_height: u64,
    peer_height: u64,
    threshold: u64,
) -> bool {
    if currently_syncing {
        peer_height > head_height
    } else {
        peer_height > head_height + threshold
    }
}

/// Once syncing, a tick keeps syncing until a peer's reported height is
/// less than or equal to the local head — not merely closer; once caught
/// up, a tick stays caught up until a peer's height exceeds the local
/// head by more than the configured threshold.
pub proof fn lemma_sync_hysteresis(head_height: u64, peer_height: u64, threshold: u64)
    ensures
        spec_needs_syncing(true, head_height, peer_height, threshold) <==> !(peer_height
            <= head_height),
        spec_needs_syncing(false, head_height, peer_height, threshold) <==> peer_height
            > head_height + threshold,
{
}

/// Whether this tick should run block sync, keep a running state sync,
/// or wait for header sync to close the gap.
#[derive(Clone, Copy, PartialEq, Eq, Structural, Debug)]
pub enum BlockSyncGate {
    /// A state-sync episode is live; continue it regardless of the
    /// horizon check.
    ContinueStateSync,
    /// The header head is close enough to the best peer: run block sync.
    RunBlockSync,
    /// The header head lags by more than the horizon: headers first.
    SkipThisTick,
}

/// The sync coordinator: the single owner of the global sync phase and
/// of the catchup episodes.
#[derive(Debug)]
pub struct StateSyncActor {
    pub config: SyncConfig,
    pub sync_status: SyncStatus,
    pub network_info: NetworkInfo,
    /// A mapping from a block for which a state sync is underway for the
    /// next epoch to the status of that sync.
    pub catchup_state_syncs: CatchupMap,
    /// Whether the downstream client handle has been registered; sending
    /// to the client before that is a logic error.
    pub client_registered: bool,
}

impl StateSyncActor {
    pub open spec fn wf(&self) -> bool {
        &&& self.sync_status.wf()
        &&& self.catchup_state_syncs.wf()
    }

    /// A fresh coordinator: awaiting peers, no episodes, no client handle.
    pub fn new(config: SyncConfig) -> (r: StateSyncActor)
        ensures
            r.config == config,
            r.sync_status is AwaitingPeers,
            r.network_info.num_active_peers == 0,
            r.network_info.highest_height_peers@.len() == 0,
            r.catchup_state_syncs.entries@.len() == 0,
            !r.client_registered,
            r.wf(),
    {
        StateSyncActor {
            config,
            sync_status: SyncStatus::AwaitingPeers,
            network_info: NetworkInfo::new(),
            catchup_state_syncs: CatchupMap::new(),
            client_registered: false,
        }
    }

    /// The policy hook: a build that disables sync overrides the
    /// hysteresis result.
    pub fn needs_syncing(&self, needs_syncing: bool) -> (r: bool)
        ensures
            r == (self.config.sync_enabled && needs_syncing),
    {
        self.config.sync_enabled && needs_syncing
    }

    /// Record the registration of the downstream client handle.
    pub fn register_client(&mut self)
        ensures
            *final(self) == (StateSyncActor { client_registered: true, ..*old(self) }),
    {
        self.client_registered = true;
    }

    /// Replace the peer snapshot.
    pub fn set_network_info(&mut self, network_info: NetworkInfo)
        ensures
            final(self).network_info == network_info,
            final(self).config == old(self).config,
            final(self).sync_status == old(self).sync_status,
            final(self).catchup_state_syncs == old(self).catchup_state_syncs,
            final(self).client_registered == old(self).client_registered,
    {
        self.network_info = network_info;
    }

    /// Whether enough peers are connected for the sync loop to start.
    pub fn ready_to_start_sync(&self) -> (r: bool)
        ensures
            r == (self.network_info.num_active_peers >= self.config.min_num_peers
                || self.config.skip_sync_wait),
    {
        self.network_info.num_active_peers >= self.config.min_num_peers
            || self.config.skip_sync_wait
    }

    /// Whether this node needs to (continue to) sync, and the best height
    /// any peer reports.  With no peer known the node is treated as not
    /// syncing rather than failing.
    pub fn syncing_info(&self, head_height: u64) -> (r: (bool, u64))
        requires
            head_height + self.config.sync_height_threshold <= u64::MAX,
        ensures
            self.network_info.highest_height_peers@.len() == 0 ==> r == (false, 0u64),
            forall|p: FullPeerInfo|
                is_best_peer(self.network_info.highest_height_peers@, p) ==> r == (
                spec_needs_syncing(
                    self.sync_status.spec_is_syncing(),
                    head_height,
                    p.height,
                    self.config.sync_height_threshold,
                ),
                p.height,
                ),
    {
        let currently_syncing = self.sync_status.is_syncing();
        match highest_height_peer(&self.network_info.highest_height_peers) {
            None => (false, 0),
            Some(peer) => {
                let mut is_syncing = currently_syncing;
                if is_syncing {
                    if peer.height <= head_height {
                        is_syncing = false;
                    }
                } else {
                    if peer.height > head_height + self.config.sync_height_threshold {
                        is_syncing = true;
                    }
                }
                proof {
                    let peers = self.network_info.highest_height_peers@;
                    assert forall|q: FullPeerInfo| is_best_peer(peers, q) implies q.height
                        == peer.height by {
                        let i = choose|i: int| 0 <= i < peers.len() && peers[i] == peer;
                        assert(peers[i] == peer);
                        let j = choose|j: int| 0 <= j < peers.len() && peers[j] == q;
                        assert(peers[j] == q);
                    }
                }
                (is_syncing, peer.height)
            },
        }
    }

    /// Leave the syncing phases.  Returns whether this tick is the one
    /// that transitions — only that tick announces the account — and the
    /// idle delay before the next tick.
    pub fn transition_no_sync(&mut self) -> (r: (bool, u64))
        requires
            old(self).wf(),
            old(self).sync_status.spec_is_syncing() ==> old(self).client_registered,
        ensures
            final(self).sync_status is NoSync,
            r.0 == old(self).sync_status.spec_is_syncing(),
            r.1 == old(self).config.sync_check_period_ms,
            final(self).config == old(self).config,
            final(self).network_info == old(self).network_info,
            final(self).catchup_state_syncs == old(self).catchup_state_syncs,
            final(self).client_registered == old(self).client_registered,
            final(self).wf(),
    {
        let was_syncing = self.sync_status.is_syncing();
        if was_syncing {
            self.sync_status = SyncStatus::NoSync;
        }
        (was_syncing, self.config.sync_check_period_ms)
    }

    /// Gate for the block phase: state sync, once entered, is not
    /// re-gated; otherwise block sync runs only while the header head is
    /// within the configured horizon of the best peer height.
    pub fn block_sync_gate(&self, header_head_height: u64, highest_height: u64) -> (r:
        BlockSyncGate)
        ensures
            self.sync_status is StateSync ==> r is ContinueStateSync,
            !(self.sync_status is StateSync) && header_head_height + self.config.block_header_fetch_horizon
                >= highest_height ==> r is RunBlockSync,
            !(self.sync_status is StateSync) && header_head_height + self.config.block_header_fetch_horizon
                < highest_height ==> r is SkipThisTick,
    {
        match &self.sync_status {
            SyncStatus::StateSync { .. } => BlockSyncGate::ContinueStateSync,
            _ => {
                let floor = if highest_height > self.config.block_header_fetch_horizon {
                    highest_height - self.config.block_header_fetch_horizon
                } else {
                    0
                };
                if header_head_height >= floor {
                    BlockSyncGate::RunBlockSync
                } else {
                    BlockSyncGate::SkipThisTick
                }
            },
        }
    }

    /// The anchor of the live episode, or nothing when this tick is the
    /// first to enter state sync and must resolve a fresh anchor.
    pub fn state_sync_anchor(&self) -> (r: Option<u64>)
        ensures
            self.sync_status matches SyncStatus::StateSync { sync_hash, .. } ==> r == Some(
                sync_hash,
            ),
            !(self.sync_status is StateSync) ==> r is None,
    {
        match &self.sync_status {
            SyncStatus::StateSync { sync_hash, .. } => Some(*sync_hash),
            _ => None,
        }
    }

    /// Stale pre-sync chain data is purged once per episode, on first
    /// entry, and never on an archival node.
    pub fn should_reset_data_pre_state_sync(&self, just_enter_state_sync: bool) -> (r: bool)
        ensures
            r == (!self.config.archive && just_enter_state_sync),
    {
        !self.config.archive && just_enter_state_sync
    }

    /// Hand the live episode's trackers to the state-sync driver, leaving
    /// an empty map in the phase until the driver's result is applied.
    pub fn take_state_sync_shards(&mut self) -> (r: ShardSyncMap)
        requires
            old(self).sync_status is StateSync,
        ensures
            r == old(self).sync_status->shards,
            final(self).sync_status matches SyncStatus::StateSync { sync_hash, shards }
                && sync_hash == old(self).sync_status->sync_hash && shards.entries@.len() == 0,
            final(self).config == old(self).config,
            final(self).network_info == old(self).network_info,
            final(self).catchup_state_syncs == old(self).catchup_state_syncs,
            final(self).client_registered == old(self).client_registered,
    {
        let mut status = SyncStatus::NoSync;
        core::mem::swap(&mut self.sync_status, &mut status);
        match status {
            SyncStatus::StateSync { sync_hash, shards } => {
                self.sync_status = SyncStatus::StateSync {
                    sync_hash,
                    shards: ShardSyncMap::new(),
                };
                shards
            },
            _ => unreached(),
        }
    }

    /// Select the anchor for a fresh state-sync episode: walk back from
    /// the header head to step off a possible fork tip, then resolve the
    /// first block of that epoch.  When the walk-back window reaches the
    /// genesis epoch the walk is skipped and resolution is retried from
    /// the header head itself: state sync never targets the genesis
    /// block.
    pub open spec fn spec_find_sync_hash(&self, chain: ChainInfo) -> Option<u64> {
        match chain.spec_walk_back(
            chain.header_head_prev_hash,
            self.config.state_fetch_horizon as nat,
        ) {
            Option::None => Option::None,
            Option::Some(walked) => match chain.spec_epoch_start(walked) {
                Option::None => Option::None,
                Option::Some(epoch_start) => if epoch_start == chain.genesis_hash {
                    chain.spec_epoch_start(chain.header_head_hash)
                } else {
                    Option::Some(epoch_start)
                },
            },
        }
    }

    /// Resolve the anchor a fresh episode will sync to.  `None` means a
    /// header on the way was unknown; the tick aborts and retries later.
    pub fn find_sync_hash(&self, chain: &ChainInfo) -> (r: Option<u64>)
        requires
            chain.wf(),
            chain.spec_epoch_start(chain.header_head_hash) matches Some(h) ==> h
                != chain.genesis_hash,
        ensures
            r == self.spec_find_sync_hash(*chain),
            r matches Some(h) ==> h != chain.genesis_hash,
    {
        match chain.walk_back(chain.header_head_prev_hash, self.config.state_fetch_horizon) {
            None => None,
            Some(walked) => {
                match chain.get_epoch_start_sync_hash(walked) {
                    None => None,
                    Some(epoch_start) => {
                        if epoch_start == chain.genesis_hash {
                            chain.get_epoch_start_sync_hash(chain.header_head_hash)
                        } else {
                            Some(epoch_start)
                        }
                    },
                }
            },
        }
    }

    /// Whether to ask a peer for a block: a block already held locally is
    /// skipped silently, and a failed existence check only logs.
    pub fn request_block_by_hash(&self, hash: u64, peer_id: u64, block_exists: Option<bool>) -> (r:
        Option<SyncAction>)
        ensures
            block_exists == Some(false) ==> r == Some(SyncAction::BlockRequest { hash, peer_id }),
            block_exists != Some(false) ==> r is None,
    {
        match block_exists {
            Some(false) => Some(SyncAction::BlockRequest { hash, peer_id }),
            _ => None,
        }
    }

    /// Apply the state-sync driver's result to the global phase.
    /// `Unchanged` keeps the phase; `Changed` persists the episode;
    /// `Completed` leaves state sync for body sync at heights zero — the
    /// completion side effects are issued separately, in order.
    pub fn apply_state_sync_result(
        &mut self,
        sync_hash: u64,
        new_shard_sync: ShardSyncMap,
        result: StateSyncResult,
    )
        requires
            old(self).wf(),
            new_shard_sync.wf(),
            old(self).sync_status matches SyncStatus::StateSync { sync_hash: h0, .. } ==> sync_hash
                == h0,
            result is Completed ==> old(self).client_registered,
        ensures
            result is Unchanged && old(self).sync_status is StateSync ==> final(self).sync_status
                == (SyncStatus::StateSync { sync_hash, shards: new_shard_sync }),
            result is Unchanged && !(old(self).sync_status is StateSync) ==> final(self).sync_status
                == old(self).sync_status,
            result is Changed ==> final(self).sync_status == (SyncStatus::StateSync {
                sync_hash,
                shards: new_shard_sync,
            }),
            result is Completed ==> final(self).sync_status == (SyncStatus::BodySync {
                current_height: 0,
                highest_height: 0,
            }),
            final(self).config == old(self).config,
            final(self).network_info == old(self).network_info,
            final(self).catchup_state_syncs == old(self).catchup_state_syncs,
            final(self).client_registered == old(self).client_registered,
            final(self).wf(),
    {
        match result {
            StateSyncResult::Unchanged => {
                let is_state_sync = match &self.sync_status {
                    SyncStatus::StateSync { .. } => true,
                    _ => false,
                };
                if is_state_sync {
                    self.sync_status = SyncStatus::StateSync { sync_hash, shards: new_shard_sync };
                }
            },
            StateSyncResult::Changed(_fetch_block) => {
                self.sync_status = SyncStatus::StateSync { sync_hash, shards: new_shard_sync };
            },
            StateSyncResult::Completed => {
                self.sync_status = SyncStatus::BodySync { current_height: 0, highest_height: 0 };
            },
        }
    }
}

/// Apply the catchup driver's result for one epoch boundary.  A catchup
/// driver never asks for a block fetch, and completion hands control
/// back to the caller: it applies the buffered blocks and forwards the
/// collected challenges, accepted blocks and chunk requests in the same
/// order as a main-episode completion.
impl StateSyncActor {
    pub fn apply_catchup_state_sync_result(&mut self, sync_hash: u64, result: StateSyncResult) -> (r:
        bool)
        requires
            old(self).wf(),
            old(self).catchup_state_syncs.spec_contains(sync_hash),
            !(result matches StateSyncResult::Changed(fetch_block) && fetch_block),
            result is Completed ==> old(self).client_registered,
        ensures
            *final(self) == *old(self),
            r == (result is Completed),
    {
        match result {
            StateSyncResult::Unchanged => false,
            StateSyncResult::Changed(_fetch_block) => false,
            StateSyncResult::Completed => true,
        }
    }
}

/// The chunk requests of all blocks with missing chunks, in block order.
pub open spec fn spec_chunks_union(blocks: Seq<Vec<u64>>) -> Seq<u64>
    decreases blocks.len(),
{
    if blocks.len() == 0 {
        Seq::empty()
    } else {
        blocks[0]@ + spec_chunks_union(blocks.drop_first())
    }
}

proof fn lemma_chunks_union_take(s: Seq<Vec<u64>>, i: int)
    requires
        0 <= i < s.len(),
    ensures
        spec_chunks_union(s.take(i + 1)) =~= spec_chunks_union(s.take(i)) + s[i]@,
    decreases i,
{
    if i == 0 {
        assert(s.take(1) =~= seq![s[0]]);
        assert(s.take(1).drop_first() =~= Seq::<Vec<u64>>::empty());
        assert(s.take(0) =~= Seq::<Vec<u64>>::empty());
        assert(spec_chunks_union(s.take(1)) =~= s[0]@);
    } else {
        let t = s.drop_first();
        assert(s.take(i + 1).drop_first() =~= t.take(i));
        assert(s.take(i).drop_first() =~= t.take(i - 1));
        lemma_chunks_union_take(t, i - 1);
        assert(spec_chunks_union(s.take(i + 1)) =~= s[0]@ + spec_chunks_union(t.take(i)));
        assert(spec_chunks_union(s.take(i)) =~= s[0]@ + spec_chunks_union(t.take(i - 1)));
    }
}

/// The side effects of a completed state-sync episode, in the order they
/// are issued: all challenges first, then the accepted blocks, then one
/// consolidated chunk request covering the union of missing chunks
/// across all blocks.
pub fn completion_actions(
    challenges: Vec<u64>,
    accepted_blocks: Vec<u64>,
    blocks_missing_chunks: Vec<Vec<u64>>,
) -> (r: Vec<SyncAction>)
    ensures
        r@.len() == 3,
        r@[0] == (SyncAction::SendChallenges(challenges)),
        r@[1] == (SyncAction::ProcessAcceptedBlocks(accepted_blocks)),
        r@[2] matches SyncAction::RequestChunks(chunks) && chunks@ == spec_chunks_union(
            blocks_missing_chunks@,
        ),
{
    let mut chunks: Vec<u64> = Vec::new();
    let n = blocks_missing_chunks.len();
    let mut i: usize = 0;
    while i < n
        invariant
            i <= n,
            n == blocks_missing_chunks@.len(),
            chunks@ =~= spec_chunks_union(blocks_missing_chunks@.take(i as int)),
        decreases n - i,
    {
        let row = &blocks_missing_chunks[i];
        let m = row.len();
        let mut j: usize = 0;
        while j < m
            invariant
                j <= m,
                i < n,
                n == blocks_missing_chunks@.len(),
                m == row@.len(),
                row@ == blocks_missing_chunks@[i as int]@,
                chunks@ =~= spec_chunks_union(blocks_missing_chunks@.take(i as int)) + row@.take(
                    j as int,
                ),
            decreases m - j,
        {
            chunks.push(row[j]);
            j = j + 1;
        }
        proof {
            assert(row@.take(m as int) =~= row@);
            lemma_chunks_union_take(blocks_missing_chunks@, i as int);
        }
        i = i + 1;
    }
    proof {
        assert(blocks_missing_chunks@.take(n as int) =~= blocks_missing_chunks@);
    }
    let mut r: Vec<SyncAction> = Vec::new();
    r.push(SyncAction::SendChallenges(challenges));
    r.push(SyncAction::ProcessAcceptedBlocks(accepted_blocks));
    r.push(SyncAction::RequestChunks(chunks));
    r
}

/// The shards this node must care about for the current or next epoch:
/// the indices whose flag is set, in increasing order.
pub fn select_shards(cares: &Vec<bool>) -> (r: Vec<u64>)
    ensures
        forall|j: int|
            0 <= j < r@.len() ==> r@[j] < cares@.len() && cares@[r@[j] as int],
        forall|a: int, b: int| 0 <= a < b < r@.len() ==> r@[a] < r@[b],
        forall|i: int| 0 <= i < cares@.len() && cares@[i] ==> r@.contains(i as u64),
{
    let n = cares.len();
    let mut r: Vec<u64> = Vec::new();
    let mut i: usize = 0;
    while i < n
        invariant
            i <= n,
            n == cares@.len(),
            forall|j: int| 0 <= j < r@.len() ==> r@[j] < i && cares@[r@[j] as int],
            forall|a: int, b: int| 0 <= a < b < r@.len() ==> r@[a] < r@[b],
            forall|k: int| 0 <= k < i && cares@[k] ==> r@.contains(k as u64),
        decreases n - i,
    {
        let ghost prev = r@;
        if cares[i] {
            r.push(i as u64);
            proof {
                assert(r@[r@.len() - 1] == i as u64);
                assert forall|k: int| 0 <= k < i && cares@[k] implies r@.contains(k as u64) by {
                    let idx = choose|idx: int| 0 <= idx < prev.len() && prev[idx] == k as u64;
                    assert(r@[idx] == k as u64);
                }
            }
        }
        i = i + 1;
    }
    r
}

} // verus!
