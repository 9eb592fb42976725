//! Routing of inbound state responses into the download trackers.
//!
//! A state-response message names an anchor hash and a shard.  At most
//! one live tracker may match it: the main episode's (only when the
//! anchor equals the main phase's anchor) or one catchup episode's.  A
//! response with no matching tracker is stale, duplicate or forged and is
//! dropped without touching any state.  Applying a header or a part to
//! chain storage is the caller's step; the functions here decide whether
//! that step runs and record its outcome, and they never regress a slot
//! that is already done.

use crate::actor::{StateSyncActor, StateSyncActorRequests};
use crate::catchup::lemma_catchup_frame_after_update;
use crate::download::{DownloadStatus, ShardSyncDownload};
use crate::sync_status::{lemma_frame_after_update, SyncStatus};
use vstd::prelude::*;

verus! {

/// Which live tracker a response matches.
#[derive(Clone, Copy, PartialEq, Eq, Structural, Debug)]
pub enum TrackerMatch {
    /// No live tracker: the response is dropped.
    NoMatch,
    /// The main episode's tracker.
    MainEpisode,
    /// A catchup episode's tracker.
    CatchupEpisode,
    /// Both match: an internal invariant violation the caller fails
    /// loudly on.
    Ambiguous,
}

/// What a state response calls for, given the matched tracker's state.
#[derive(Clone, Copy, PartialEq, Eq, Structural, Debug)]
pub enum ResponsePlan {
    /// No live tracker matches: drop without mutation.
    Discard,
    /// A matched tracker wants nothing from this response.
    Ignore,
    /// Apply the carried header to chain storage, then record the
    /// outcome.
    ApplyHeader,
    /// The response carried no header although one is awaited: mark the
    /// header slot errored.
    MarkHeaderMissing,
    /// Apply the carried part to chain storage, then record the outcome.
    ApplyPart { part_id: u64 },
    /// The part index is outside the episode's fixed part count: a
    /// protocol violation, dropped without mutation.
    RejectPart { part_id: u64 },
}

/// What `handle` asks of its caller.
#[derive(Debug)]
pub enum HandleDirective {
    /// The message was absorbed.
    Handled,
    /// Tell the state-sync driver a requested part was delivered.
    NotifyReceivedPart { part_id: u64, shard_id: u64, hash: u64 },
    /// A state response: notify the driver if asked, follow the plan,
    /// and record the outcome of any storage step.
    Respond { notify_driver: bool, plan: ResponsePlan },
}

impl StateSyncActor {
    /// The response's anchor equals the live main episode's anchor.
    pub open spec fn main_episode_matches(&self, sync_hash: u64) -> bool {
        self.sync_status matches SyncStatus::StateSync { sync_hash: h, .. } && h == sync_hash
    }

    /// The main episode holds a tracker for this anchor and shard.
    pub open spec fn spec_main_has_tracker(&self, sync_hash: u64, shard_id: u64) -> bool {
        self.main_episode_matches(sync_hash) && self.sync_status->shards.spec_contains(shard_id)
    }

    /// Some catchup episode holds a tracker for this anchor and shard.
    pub open spec fn spec_catchup_has_tracker(&self, sync_hash: u64, shard_id: u64) -> bool {
        self.catchup_state_syncs.spec_contains(sync_hash) && self.catchup_state_syncs.spec_get(
            sync_hash,
        ).spec_contains(shard_id)
    }

    pub open spec fn spec_has_tracker(&self, sync_hash: u64, shard_id: u64) -> bool {
        self.spec_main_has_tracker(sync_hash, shard_id) || self.spec_catchup_has_tracker(
            sync_hash,
            shard_id,
        )
    }

    /// Both the main episode and a catchup episode hold a tracker: the
    /// internal downloads set has duplicates.
    pub open spec fn spec_response_ambiguous(&self, sync_hash: u64, shard_id: u64) -> bool {
        self.spec_main_has_tracker(sync_hash, shard_id) && self.spec_catchup_has_tracker(
            sync_hash,
            shard_id,
        )
    }

    /// The matched tracker, the main episode's first.
    pub open spec fn spec_tracker(&self, sync_hash: u64, shard_id: u64) -> ShardSyncDownload {
        if self.spec_main_has_tracker(sync_hash, shard_id) {
            self.sync_status->shards.spec_get(shard_id)
        } else {
            self.catchup_state_syncs.spec_get(sync_hash).spec_get(shard_id)
        }
    }

    /// The driver's outstanding-request accounting is told of a delivered
    /// part whenever the anchor names a live episode, whether or not the
    /// shard has a tracker.
    pub open spec fn spec_notify_driver(&self, sync_hash: u64, part_id: Option<u64>) -> bool {
        part_id is Some && (self.main_episode_matches(sync_hash)
            || self.catchup_state_syncs.spec_contains(sync_hash))
    }

    /// Look the response's tracker up, main episode first, and report a
    /// double match instead of using either tracker.
    pub fn locate_tracker(&self, sync_hash: u64, shard_id: u64) -> (r: TrackerMatch)
        requires
            self.wf(),
        ensures
            r is Ambiguous <==> self.spec_response_ambiguous(sync_hash, shard_id),
            r is MainEpisode <==> (self.spec_main_has_tracker(sync_hash, shard_id)
                && !self.spec_catchup_has_tracker(sync_hash, shard_id)),
            r is CatchupEpisode <==> (!self.spec_main_has_tracker(sync_hash, shard_id)
                && self.spec_catchup_has_tracker(sync_hash, shard_id)),
            r is NoMatch <==> !self.spec_has_tracker(sync_hash, shard_id),
    {
        let main = match &self.sync_status {
            SyncStatus::StateSync { sync_hash: h, shards } => *h == sync_hash && shards.contains(
                shard_id,
            ),
            _ => false,
        };
        let catchup = match self.catchup_state_syncs.get(sync_hash) {
            Some(shards) => shards.contains(shard_id),
            None => false,
        };
        if main && catchup {
            TrackerMatch::Ambiguous
        } else if main {
            TrackerMatch::MainEpisode
        } else if catchup {
            TrackerMatch::CatchupEpisode
        } else {
            TrackerMatch::NoMatch
        }
    }

    /// What this response calls for.  A response whose anchor and shard
    /// match no live tracker plans a discard: no storage call, no
    /// mutation.
    pub open spec fn spec_response_plan(
        &self,
        sync_hash: u64,
        shard_id: u64,
        has_header: bool,
        part_id: Option<u64>,
    ) -> ResponsePlan {
        if !self.spec_has_tracker(sync_hash, shard_id) {
            ResponsePlan::Discard
        } else {
            let t = self.spec_tracker(sync_hash, shard_id);
            match t.status {
                crate::download::ShardSyncStatus::StateDownloadHeader => if has_header {
                    if t.downloads@[0].done {
                        ResponsePlan::Ignore
                    } else {
                        ResponsePlan::ApplyHeader
                    }
                } else {
                    if t.downloads@[0].done {
                        ResponsePlan::Ignore
                    } else {
                        ResponsePlan::MarkHeaderMissing
                    }
                },
                crate::download::ShardSyncStatus::StateDownloadParts => match part_id {
                    Option::Some(p) => if p >= t.downloads@.len() {
                        ResponsePlan::RejectPart { part_id: p }
                    } else if t.downloads@[p as int].done {
                        ResponsePlan::Ignore
                    } else {
                        ResponsePlan::ApplyPart { part_id: p }
                    },
                    Option::None => ResponsePlan::Ignore,
                },
                crate::download::ShardSyncStatus::StateDone => ResponsePlan::Ignore,
            }
        }
    }

    /// Decide what to do with a state response, without mutating
    /// anything.  Returns whether to notify the driver of a delivered
    /// part, and the plan.
    pub fn plan_state_response(
        &self,
        sync_hash: u64,
        shard_id: u64,
        has_header: bool,
        part_id: Option<u64>,
    ) -> (r: (bool, ResponsePlan))
        requires
            self.wf(),
            !self.spec_response_ambiguous(sync_hash, shard_id),
        ensures
            r.0 == self.spec_notify_driver(sync_hash, part_id),
            r.1 == self.spec_response_plan(sync_hash, shard_id, has_header, part_id),
    {
        let anchor_is_main = match &self.sync_status {
            SyncStatus::StateSync { sync_hash: h, .. } => *h == sync_hash,
            _ => false,
        };
        let notify = part_id.is_some() && (anchor_is_main || self.catchup_state_syncs.contains(
            sync_hash,
        ));
        let which = self.locate_tracker(sync_hash, shard_id);
        let plan = match which {
            TrackerMatch::NoMatch => ResponsePlan::Discard,
            _ => {
                let tracker: &ShardSyncDownload = match which {
                    TrackerMatch::MainEpisode => {
                        match &self.sync_status {
                            SyncStatus::StateSync { shards, .. } => {
                                match shards.get(shard_id) {
                                    Some(t) => t,
                                    None => unreached(),
                                }
                            },
                            _ => unreached(),
                        }
                    },
                    _ => {
                        match self.catchup_state_syncs.get(sync_hash) {
                            Some(shards) => {
                                match shards.get(shard_id) {
                                    Some(t) => t,
                                    None => unreached(),
                                }
                            },
                            None => unreached(),
                        }
                    },
                };
                match tracker.status {
                    crate::download::ShardSyncStatus::StateDownloadHeader => {
                        if tracker.downloads[0].done {
                            ResponsePlan::Ignore
                        } else if has_header {
                            ResponsePlan::ApplyHeader
                        } else {
                            ResponsePlan::MarkHeaderMissing
                        }
                    },
                    crate::download::ShardSyncStatus::StateDownloadParts => {
                        match part_id {
                            Some(p) => {
                                if p >= tracker.downloads.len() as u64 {
                                    ResponsePlan::RejectPart { part_id: p }
                                } else if tracker.downloads[p as usize].done {
                                    ResponsePlan::Ignore
                                } else {
                                    ResponsePlan::ApplyPart { part_id: p }
                                }
                            },
                            None => ResponsePlan::Ignore,
                        }
                    },
                    crate::download::ShardSyncStatus::StateDone => ResponsePlan::Ignore,
                }
            },
        };
        (notify, plan)
    }

    /// Record the outcome of applying a received header to chain storage:
    /// success marks the matched tracker's header slot done, failure
    /// marks it errored for the driver to retry.  Nothing else changes.
    pub fn record_header_outcome(&mut self, sync_hash: u64, shard_id: u64, ok: bool)
        requires
            old(self).wf(),
            !old(self).spec_response_ambiguous(sync_hash, shard_id),
            old(self).spec_has_tracker(sync_hash, shard_id),
            old(self).spec_tracker(sync_hash, shard_id).status is StateDownloadHeader,
            !old(self).spec_tracker(sync_hash, shard_id).downloads@[0].done,
        ensures
            final(self).wf(),
            final(self).spec_has_tracker(sync_hash, shard_id),
            final(self).spec_tracker(sync_hash, shard_id).status == old(self).spec_tracker(
                sync_hash,
                shard_id,
            ).status,
            final(self).spec_tracker(sync_hash, shard_id).downloads@.len() == old(
                self,
            ).spec_tracker(sync_hash, shard_id).downloads@.len(),
            final(self).spec_tracker(sync_hash, shard_id).downloads@[0].done == ok,
            final(self).spec_tracker(sync_hash, shard_id).downloads@[0].error == (old(
                self,
            ).spec_tracker(sync_hash, shard_id).downloads@[0].error || !ok),
            forall|h2: u64, s2: u64|
                final(self).spec_has_tracker(h2, s2) == old(self).spec_has_tracker(h2, s2),
            forall|h2: u64, s2: u64|
                (h2 != sync_hash || s2 != shard_id) && old(self).spec_has_tracker(h2, s2) ==> final(self).spec_tracker(h2, s2) == old(self).spec_tracker(h2, s2),
            forall|h2: u64| final(self).main_episode_matches(h2) == old(self).main_episode_matches(
                h2,
            ),
            final(self).config == old(self).config,
            final(self).network_info == old(self).network_info,
            final(self).client_registered == old(self).client_registered,
            old(self).spec_main_has_tracker(sync_hash, shard_id) ==> final(self).catchup_state_syncs
                == old(self).catchup_state_syncs,
            !old(self).spec_main_has_tracker(sync_hash, shard_id) ==> final(self).sync_status
                == old(self).sync_status,
    {
        let ghost pre = *self;
        let is_main = match &self.sync_status {
            SyncStatus::StateSync { sync_hash: h, shards } => *h == sync_hash && shards.contains(
                shard_id,
            ),
            _ => false,
        };
        if is_main {
            match &mut self.sync_status {
                SyncStatus::StateSync { shards, .. } => {
                    let ghost pre_map = *shards;
                    let t = shards.tracker_mut(shard_id);
                    t.apply_header_result(ok);
                    proof {
                        lemma_frame_after_update(
                            pre_map,
                            *shards,
                            pre_map.spec_index_of(shard_id),
                            shard_id,
                            shards.entries@[pre_map.spec_index_of(shard_id)].download,
                        );
                    }
                },
                _ => {},
            }
            proof {
                lemma_actor_tracker_frames(pre, *self, sync_hash, shard_id);
            }
        } else {
            let ghost pre_c = self.catchup_state_syncs;
            let shards = self.catchup_state_syncs.shards_mut(sync_hash);
            let ghost pre_map = *shards;
            let t = shards.tracker_mut(shard_id);
            t.apply_header_result(ok);
            proof {
                lemma_frame_after_update(
                    pre_map,
                    *shards,
                    pre_map.spec_index_of(shard_id),
                    shard_id,
                    shards.entries@[pre_map.spec_index_of(shard_id)].download,
                );
            }
            proof {
                lemma_catchup_frame_after_update(
                    pre_c,
                    self.catchup_state_syncs,
                    pre_c.spec_index_of(sync_hash),
                    sync_hash,
                    self.catchup_state_syncs.entries@[pre_c.spec_index_of(sync_hash)].shards,
                );
                lemma_actor_tracker_frames(pre, *self, sync_hash, shard_id);
            }
        }
    }
    /// Record a header response that carried no header although one is
    /// awaited: the slot is marked errored so the driver re-requests it.
    /// (A response without a header whose slot is already done plans an
    /// ignore instead and never reaches this step.)
    pub fn record_missing_header(&mut self, sync_hash: u64, shard_id: u64)
        requires
            old(self).wf(),
            !old(self).spec_response_ambiguous(sync_hash, shard_id),
            old(self).spec_has_tracker(sync_hash, shard_id),
            old(self).spec_tracker(sync_hash, shard_id).status is StateDownloadHeader,
            !old(self).spec_tracker(sync_hash, shard_id).downloads@[0].done,
        ensures
            final(self).wf(),
            final(self).spec_has_tracker(sync_hash, shard_id),
            final(self).spec_tracker(sync_hash, shard_id).status == old(self).spec_tracker(
                sync_hash,
                shard_id,
            ).status,
            final(self).spec_tracker(sync_hash, shard_id).downloads@.len() == old(
                self,
            ).spec_tracker(sync_hash, shard_id).downloads@.len(),
            final(self).spec_tracker(sync_hash, shard_id).downloads@[0] == (DownloadStatus {
                done: false,
                error: true,
            }),
            forall|h2: u64, s2: u64|
                final(self).spec_has_tracker(h2, s2) == old(self).spec_has_tracker(h2, s2),
            forall|h2: u64, s2: u64|
                (h2 != sync_hash || s2 != shard_id) && old(self).spec_has_tracker(h2, s2)
                    ==> final(self).spec_tracker(h2, s2) == old(self).spec_tracker(h2, s2),
            forall|h2: u64| final(self).main_episode_matches(h2) == old(self).main_episode_matches(
                h2,
            ),
            final(self).config == old(self).config,
            final(self).network_info == old(self).network_info,
            final(self).client_registered == old(self).client_registered,
            old(self).spec_main_has_tracker(sync_hash, shard_id) ==> final(self).catchup_state_syncs
                == old(self).catchup_state_syncs,
            !old(self).spec_main_has_tracker(sync_hash, shard_id) ==> final(self).sync_status
                == old(self).sync_status,
    {
        let ghost pre = *self;
        let is_main = match &self.sync_status {
            SyncStatus::StateSync { sync_hash: h, shards } => *h == sync_hash && shards.contains(
                shard_id,
            ),
            _ => false,
        };
        if is_main {
            match &mut self.sync_status {
                SyncStatus::StateSync { shards, .. } => {
                    let ghost pre_map = *shards;
                    let t = shards.tracker_mut(shard_id);
                    t.note_missing_header();
                    proof {
                        lemma_frame_after_update(
                            pre_map,
                            *shards,
                            pre_map.spec_index_of(shard_id),
                            shard_id,
                            shards.entries@[pre_map.spec_index_of(shard_id)].download,
                        );
                    }
                },
                _ => {},
            }
            proof {
                lemma_actor_tracker_frames(pre, *self, sync_hash, shard_id);
            }
        } else {
            let ghost pre_c = self.catchup_state_syncs;
            let shards = self.catchup_state_syncs.shards_mut(sync_hash);
            let ghost pre_map = *shards;
            let t = shards.tracker_mut(shard_id);
            t.note_missing_header();
            proof {
                lemma_frame_after_update(
                    pre_map,
                    *shards,
                    pre_map.spec_index_of(shard_id),
                    shard_id,
                    shards.entries@[pre_map.spec_index_of(shard_id)].download,
                );
            }
            proof {
                lemma_catchup_frame_after_update(
                    pre_c,
                    self.catchup_state_syncs,
                    pre_c.spec_index_of(sync_hash),
                    sync_hash,
                    self.catchup_state_syncs.entries@[pre_c.spec_index_of(sync_hash)].shards,
                );
                lemma_actor_tracker_frames(pre, *self, sync_hash, shard_id);
            }
        }
    }

    /// Record the outcome of applying a received part to chain storage:
    /// success marks the part's slot done, failure marks it errored for
    /// the driver to retry.  A slot already done is never regressed, and
    /// the episode's fixed part count never changes.
    pub fn record_part_outcome(&mut self, sync_hash: u64, shard_id: u64, part_id: u64, ok: bool)
        requires
            old(self).wf(),
            !old(self).spec_response_ambiguous(sync_hash, shard_id),
            old(self).spec_has_tracker(sync_hash, shard_id),
            old(self).spec_tracker(sync_hash, shard_id).status is StateDownloadParts,
            part_id < old(self).spec_tracker(sync_hash, shard_id).downloads@.len(),
            !old(self).spec_tracker(sync_hash, shard_id).downloads@[part_id as int].done,
        ensures
            final(self).wf(),
            final(self).spec_has_tracker(sync_hash, shard_id),
            final(self).spec_tracker(sync_hash, shard_id).status == old(self).spec_tracker(
                sync_hash,
                shard_id,
            ).status,
            final(self).spec_tracker(sync_hash, shard_id).downloads@.len() == old(
                self,
            ).spec_tracker(sync_hash, shard_id).downloads@.len(),
            final(self).spec_tracker(sync_hash, shard_id).downloads@[part_id as int].done == ok,
            final(self).spec_tracker(sync_hash, shard_id).downloads@[part_id as int].error == (old(
                self,
            ).spec_tracker(sync_hash, shard_id).downloads@[part_id as int].error || !ok),
            forall|i: int|
                0 <= i < old(self).spec_tracker(sync_hash, shard_id).downloads@.len() && i
                    != part_id ==> final(self).spec_tracker(sync_hash, shard_id).downloads@[i]
                    == old(self).spec_tracker(sync_hash, shard_id).downloads@[i],
            forall|i: int|
                0 <= i < old(self).spec_tracker(sync_hash, shard_id).downloads@.len() && old(
                    self,
                ).spec_tracker(sync_hash, shard_id).downloads@[i].done ==> final(self).spec_tracker(
                    sync_hash,
                    shard_id,
                ).downloads@[i].done,
            forall|h2: u64, s2: u64|
                final(self).spec_has_tracker(h2, s2) == old(self).spec_has_tracker(h2, s2),
            forall|h2: u64, s2: u64|
                (h2 != sync_hash || s2 != shard_id) && old(self).spec_has_tracker(h2, s2)
                    ==> final(self).spec_tracker(h2, s2) == old(self).spec_tracker(h2, s2),
            forall|h2: u64| final(self).main_episode_matches(h2) == old(self).main_episode_matches(
                h2,
            ),
            final(self).config == old(self).config,
            final(self).network_info == old(self).network_info,
            final(self).client_registered == old(self).client_registered,
            old(self).spec_main_has_tracker(sync_hash, shard_id) ==> final(self).catchup_state_syncs
                == old(self).catchup_state_syncs,
            !old(self).spec_main_has_tracker(sync_hash, shard_id) ==> final(self).sync_status
                == old(self).sync_status,
    {
        let ghost pre = *self;
        let is_main = match &self.sync_status {
            SyncStatus::StateSync { sync_hash: h, shards } => *h == sync_hash && shards.contains(
                shard_id,
            ),
            _ => false,
        };
        if is_main {
            match &mut self.sync_status {
                SyncStatus::StateSync { shards, .. } => {
                    let ghost pre_map = *shards;
                    let t = shards.tracker_mut(shard_id);
                    proof {
                        assert(*t == old(self).spec_tracker(sync_hash, shard_id));
                    }
                    let n = t.downloads.len();
                    proof {
                        assert(part_id < n);
                    }
                    t.apply_part_result(part_id as usize, ok);
                    proof {
                        lemma_frame_after_update(
                            pre_map,
                            *shards,
                            pre_map.spec_index_of(shard_id),
                            shard_id,
                            shards.entries@[pre_map.spec_index_of(shard_id)].download,
                        );
                    }
                },
                _ => {},
            }
            proof {
                lemma_actor_tracker_frames(pre, *self, sync_hash, shard_id);
            }
        } else {
            let ghost pre_c = self.catchup_state_syncs;
            let shards = self.catchup_state_syncs.shards_mut(sync_hash);
            let ghost pre_map = *shards;
            let t = shards.tracker_mut(shard_id);
            proof {
                assert(*t == old(self).spec_tracker(sync_hash, shard_id));
            }
            let n = t.downloads.len();
            proof {
                assert(part_id < n);
            }
            t.apply_part_result(part_id as usize, ok);
            proof {
                lemma_frame_after_update(
                    pre_map,
                    *shards,
                    pre_map.spec_index_of(shard_id),
                    shard_id,
                    shards.entries@[pre_map.spec_index_of(shard_id)].download,
                );
            }
            proof {
                lemma_catchup_frame_after_update(
                    pre_c,
                    self.catchup_state_syncs,
                    pre_c.spec_index_of(sync_hash),
                    sync_hash,
                    self.catchup_state_syncs.entries@[pre_c.spec_index_of(sync_hash)].shards,
                );
                lemma_actor_tracker_frames(pre, *self, sync_hash, shard_id);
            }
        }
    }

    /// Fold an inbound message into the coordinator's own state and say
    /// what remains for the caller: driver notification and storage work
    /// are the caller's, guided by the returned plan.
    pub fn handle(&mut self, msg: StateSyncActorRequests) -> (r: HandleDirective)
        requires
            old(self).wf(),
            msg matches StateSyncActorRequests::StateResponse { shard_id, sync_hash, .. } ==> !old(
                self,
            ).spec_response_ambiguous(sync_hash, shard_id),
        ensures
            final(self).wf(),
            msg matches StateSyncActorRequests::ReceivedRequestedPart { part_id, shard_id, hash }
                ==> *final(self) == *old(self) && r == (HandleDirective::NotifyReceivedPart {
                part_id,
                shard_id,
                hash,
            }),
            msg is ClientAddr ==> *final(self) == (StateSyncActor {
                client_registered: true,
                ..*old(self)
            }) && r is Handled,
            msg matches StateSyncActorRequests::NetworkInfo { network_info } ==> *final(self) == (
            StateSyncActor { network_info, ..*old(self) }) && r is Handled,
            msg matches StateSyncActorRequests::StateResponse {
                shard_id,
                sync_hash,
                has_header,
                part_id,
            } ==> *final(self) == *old(self) && r == (HandleDirective::Respond {
                notify_driver: old(self).spec_notify_driver(sync_hash, part_id),
                plan: old(self).spec_response_plan(sync_hash, shard_id, has_header, part_id),
            }),
    {
        match msg {
            StateSyncActorRequests::ReceivedRequestedPart { part_id, shard_id, hash } => {
                HandleDirective::NotifyReceivedPart { part_id, shard_id, hash }
            },
            StateSyncActorRequests::ClientAddr => {
                self.register_client();
                HandleDirective::Handled
            },
            StateSyncActorRequests::NetworkInfo { network_info } => {
                self.set_network_info(network_info);
                HandleDirective::Handled
            },
            StateSyncActorRequests::StateResponse { shard_id, sync_hash, has_header, part_id } => {
                let (notify_driver, plan) = self.plan_state_response(
                    sync_hash,
                    shard_id,
                    has_header,
                    part_id,
                );
                HandleDirective::Respond { notify_driver, plan }
            },
        }
    }
}

/// A part slot once done is never touched again: every response naming
/// that part — duplicate, late or out of order — plans an ignore, so no
/// storage call runs for it and no recording step can mark it errored.
pub proof fn lemma_done_part_slot_is_ignored(
    actor: StateSyncActor,
    sync_hash: u64,
    shard_id: u64,
    has_header: bool,
    part_id: u64,
)
    requires
        actor.spec_has_tracker(sync_hash, shard_id),
        actor.spec_tracker(sync_hash, shard_id).status is StateDownloadParts,
        part_id < actor.spec_tracker(sync_hash, shard_id).downloads@.len(),
        actor.spec_tracker(sync_hash, shard_id).downloads@[part_id as int].done,
    ensures
        actor.spec_response_plan(sync_hash, shard_id, has_header, Some(part_id))
            == ResponsePlan::Ignore,
{
}

/// A header slot once done is never touched again: a later response for
/// the shard — with or without a header payload — plans an ignore, so a
/// duplicate late response cannot erase prior success.
pub proof fn lemma_done_header_slot_is_ignored(
    actor: StateSyncActor,
    sync_hash: u64,
    shard_id: u64,
    has_header: bool,
    part_id: Option<u64>,
)
    requires
        actor.spec_has_tracker(sync_hash, shard_id),
        actor.spec_tracker(sync_hash, shard_id).status is StateDownloadHeader,
        actor.spec_tracker(sync_hash, shard_id).downloads@[0].done,
    ensures
        actor.spec_response_plan(sync_hash, shard_id, has_header, part_id)
            == ResponsePlan::Ignore,
{
}

/// A part index at or beyond the episode's fixed part count is a
/// protocol violation: the response plans a reject, so no storage call
/// runs and the tracker — its slot count above all — stays as it is.
pub proof fn lemma_out_of_range_part_is_rejected(
    actor: StateSyncActor,
    sync_hash: u64,
    shard_id: u64,
    has_header: bool,
    part_id: u64,
)
    requires
        actor.spec_has_tracker(sync_hash, shard_id),
        actor.spec_tracker(sync_hash, shard_id).status is StateDownloadParts,
        part_id >= actor.spec_tracker(sync_hash, shard_id).downloads@.len(),
    ensures
        actor.spec_response_plan(sync_hash, shard_id, has_header, Some(part_id))
            == (ResponsePlan::RejectPart { part_id }),
{
}

/// A response whose anchor and shard match no live tracker — stale,
/// duplicate or forged — plans a discard: no storage call, no mutation.
pub proof fn lemma_unmatched_response_is_discarded(
    actor: StateSyncActor,
    sync_hash: u64,
    shard_id: u64,
    has_header: bool,
    part_id: Option<u64>,
)
    requires
        !actor.spec_has_tracker(sync_hash, shard_id),
    ensures
        actor.spec_response_plan(sync_hash, shard_id, has_header, part_id)
            == ResponsePlan::Discard,
{
}

/// After one tracker of `pre` was updated in place — in the main
/// episode's map when `pre` routes the response there, else in the
/// matched catchup episode's map — every other tracker, the set of
/// trackers, and the episode anchors read the same in `post`.
proof fn lemma_actor_tracker_frames(
    pre: StateSyncActor,
    post: StateSyncActor,
    sync_hash: u64,
    shard_id: u64,
)
    requires
        pre.wf(),
        pre.spec_has_tracker(sync_hash, shard_id),
        !pre.spec_response_ambiguous(sync_hash, shard_id),
        post.config == pre.config,
        post.network_info == pre.network_info,
        post.client_registered == pre.client_registered,
        pre.spec_main_has_tracker(sync_hash, shard_id) ==> {
            &&& post.catchup_state_syncs == pre.catchup_state_syncs
            &&& post.sync_status is StateSync
            &&& pre.sync_status is StateSync
            &&& post.sync_status->sync_hash == pre.sync_status->sync_hash
            &&& post.sync_status->shards.wf()
            &&& forall|s: u64|
                post.sync_status->shards.spec_contains(s) == pre.sync_status->shards.spec_contains(
                    s,
                )
            &&& forall|s: u64|
                s != shard_id && pre.sync_status->shards.spec_contains(s)
                    ==> post.sync_status->shards.spec_get(s) == pre.sync_status->shards.spec_get(s)
        },
        !pre.spec_main_has_tracker(sync_hash, shard_id) ==> {
            &&& post.sync_status == pre.sync_status
            &&& post.catchup_state_syncs.wf()
            &&& forall|h: u64|
                post.catchup_state_syncs.spec_contains(h) == pre.catchup_state_syncs.spec_contains(
                    h,
                )
            &&& forall|h: u64|
                h != sync_hash && pre.catchup_state_syncs.spec_contains(h)
                    ==> post.catchup_state_syncs.spec_get(h) == pre.catchup_state_syncs.spec_get(h)
            &&& post.catchup_state_syncs.spec_contains(sync_hash)
            &&& post.catchup_state_syncs.spec_get(sync_hash).wf()
            &&& forall|s: u64|
                post.catchup_state_syncs.spec_get(sync_hash).spec_contains(s)
                    == pre.catchup_state_syncs.spec_get(sync_hash).spec_contains(s)
            &&& forall|s: u64|
                s != shard_id && pre.catchup_state_syncs.spec_get(sync_hash).spec_contains(s)
                    ==> post.catchup_state_syncs.spec_get(sync_hash).spec_get(s)
                    == pre.catchup_state_syncs.spec_get(sync_hash).spec_get(s)
        },
    ensures
        post.wf(),
        forall|h2: u64, s2: u64| post.spec_has_tracker(h2, s2) == pre.spec_has_tracker(h2, s2),
        forall|h2: u64, s2: u64|
            (h2 != sync_hash || s2 != shard_id) && pre.spec_has_tracker(h2, s2)
                ==> post.spec_tracker(h2, s2) == pre.spec_tracker(h2, s2),
        forall|h2: u64| post.main_episode_matches(h2) == pre.main_episode_matches(h2),
        post.spec_has_tracker(sync_hash, shard_id),
        pre.spec_main_has_tracker(sync_hash, shard_id) ==> post.spec_tracker(sync_hash, shard_id)
            == post.sync_status->shards.spec_get(shard_id),
        !pre.spec_main_has_tracker(sync_hash, shard_id) ==> post.spec_tracker(sync_hash, shard_id)
            == post.catchup_state_syncs.spec_get(sync_hash).spec_get(shard_id),
{
    if pre.spec_main_has_tracker(sync_hash, shard_id) {
        assert forall|h2: u64, s2: u64| post.spec_has_tracker(h2, s2) == pre.spec_has_tracker(
            h2,
            s2,
        ) by {
            assert(post.main_episode_matches(h2) == pre.main_episode_matches(h2));
        }
        assert forall|h2: u64, s2: u64|
            (h2 != sync_hash || s2 != shard_id) && pre.spec_has_tracker(h2, s2) implies post
            .spec_tracker(h2, s2) == pre.spec_tracker(h2, s2) by {
            if pre.spec_main_has_tracker(h2, s2) {
                assert(h2 == sync_hash);
                assert(s2 != shard_id);
            }
        }
    } else {
        assert(pre.spec_catchup_has_tracker(sync_hash, shard_id));
        assert forall|h2: u64, s2: u64| post.spec_has_tracker(h2, s2) == pre.spec_has_tracker(
            h2,
            s2,
        ) by {}
        assert forall|h2: u64, s2: u64|
            (h2 != sync_hash || s2 != shard_id) && pre.spec_has_tracker(h2, s2) implies post
            .spec_tracker(h2, s2) == pre.spec_tracker(h2, s2) by {
            if !pre.spec_main_has_tracker(h2, s2) && pre.spec_catchup_has_tracker(h2, s2) {
                if h2 == sync_hash {
                    assert(s2 != shard_id);
                }
            }
        }
    }
}

} // verus!
