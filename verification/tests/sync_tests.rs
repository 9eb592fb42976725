use chain_sync::actor::{
    completion_actions, select_shards, BlockSyncGate, StateSyncActor, StateSyncActorRequests,
    StateSyncResult, SyncAction, SyncConfig,
};
use chain_sync::chain_info::{ChainInfo, HeaderInfo};
use chain_sync::download::{ShardSyncDownload, ShardSyncStatus};
use chain_sync::peer::{highest_height_peer, FullPeerInfo, NetworkInfo};
use chain_sync::response::{HandleDirective, ResponsePlan, TrackerMatch};
use chain_sync::sync_status::{ShardSyncMap, SyncStatus};

fn test_config() -> SyncConfig {
    SyncConfig {
        min_num_peers: 1,
        skip_sync_wait: false,
        sync_height_threshold: 5,
        block_header_fetch_horizon: 2,
        state_fetch_horizon: 2,
        archive: false,
        sync_step_period_ms: 10,
        sync_check_period_ms: 100,
        catchup_step_period_ms: 50,
        sync_enabled: true,
    }
}

fn actor_with_peer(height: u64) -> StateSyncActor {
    let mut actor = StateSyncActor::new(test_config());
    actor.set_network_info(NetworkInfo {
        num_active_peers: 1,
        highest_height_peers: vec![FullPeerInfo { peer_id: 1, height }],
    });
    actor
}

/// A tracker whose header slot has been applied successfully.
fn header_done_tracker() -> ShardSyncDownload {
    let mut t = ShardSyncDownload::new();
    t.apply_header_result(true);
    t
}

/// A tracker in the parts phase with `num_parts` open slots.
fn parts_tracker(num_parts: usize) -> ShardSyncDownload {
    let mut t = header_done_tracker();
    t.start_parts(num_parts);
    t
}

fn state_sync_actor(sync_hash: u64, shard_id: u64, tracker: ShardSyncDownload) -> StateSyncActor {
    let mut actor = StateSyncActor::new(test_config());
    let mut shards = ShardSyncMap::new();
    shards.insert(shard_id, tracker);
    actor.sync_status = SyncStatus::StateSync { sync_hash, shards };
    actor
}

#[test]
fn peer_at_local_height_means_no_sync() {
    let mut actor = actor_with_peer(100);
    let (needs_syncing, highest) = actor.syncing_info(100);
    assert!(!needs_syncing);
    assert_eq!(highest, 100);
    assert!(!actor.needs_syncing(needs_syncing));
    actor.register_client();
    let (announce, wait) = actor.transition_no_sync();
    assert!(announce);
    assert_eq!(wait, 100);
    assert!(matches!(actor.sync_status, SyncStatus::NoSync));
}

#[test]
fn staying_in_no_sync_does_not_announce_again() {
    let mut actor = actor_with_peer(100);
    actor.register_client();
    actor.sync_status = SyncStatus::NoSync;
    let (announce, _) = actor.transition_no_sync();
    assert!(!announce);
    assert!(matches!(actor.sync_status, SyncStatus::NoSync));
}

#[test]
fn peer_over_threshold_starts_sync_and_horizon_gates_block_sync() {
    let mut actor = actor_with_peer(106);
    actor.sync_status = SyncStatus::NoSync;
    let (needs_syncing, highest) = actor.syncing_info(100);
    assert!(needs_syncing);
    assert_eq!(highest, 106);
    // Header head far behind the peer: block sync is skipped this tick.
    assert_eq!(actor.block_sync_gate(100, 106), BlockSyncGate::SkipThisTick);
    // Header head close enough: block sync runs.
    assert_eq!(actor.block_sync_gate(104, 106), BlockSyncGate::RunBlockSync);
}

#[test]
fn peer_exactly_at_threshold_does_not_start_sync() {
    let mut actor = actor_with_peer(105);
    actor.sync_status = SyncStatus::NoSync;
    let (needs_syncing, _) = actor.syncing_info(100);
    assert!(!needs_syncing);
}

#[test]
fn syncing_continues_until_peer_is_not_ahead() {
    let mut actor = actor_with_peer(101);
    actor.sync_status = SyncStatus::HeaderSync;
    let (needs_syncing, _) = actor.syncing_info(100);
    assert!(needs_syncing);
    actor.set_network_info(NetworkInfo {
        num_active_peers: 1,
        highest_height_peers: vec![FullPeerInfo { peer_id: 1, height: 100 }],
    });
    let (needs_syncing, _) = actor.syncing_info(100);
    assert!(!needs_syncing);
}

#[test]
fn no_peers_means_no_sync() {
    let actor = StateSyncActor::new(test_config());
    let (needs_syncing, highest) = actor.syncing_info(100);
    assert!(!needs_syncing);
    assert_eq!(highest, 0);
}

#[test]
fn disabled_sync_policy_overrides_hysteresis() {
    let mut config = test_config();
    config.sync_enabled = false;
    let mut actor = StateSyncActor::new(config);
    actor.set_network_info(NetworkInfo {
        num_active_peers: 1,
        highest_height_peers: vec![FullPeerInfo { peer_id: 1, height: 200 }],
    });
    let (needs_syncing, _) = actor.syncing_info(100);
    assert!(needs_syncing);
    assert!(!actor.needs_syncing(needs_syncing));
}

#[test]
fn best_peer_is_highest_then_least_id() {
    let peers = vec![
        FullPeerInfo { peer_id: 9, height: 50 },
        FullPeerInfo { peer_id: 4, height: 70 },
        FullPeerInfo { peer_id: 2, height: 70 },
        FullPeerInfo { peer_id: 1, height: 60 },
    ];
    let best = highest_height_peer(&peers).unwrap();
    assert_eq!(best.peer_id, 2);
    assert_eq!(best.height, 70);
    assert!(highest_height_peer(&Vec::new()).is_none());
}

#[test]
fn ready_to_start_sync_waits_for_min_peers() {
    let mut actor = StateSyncActor::new(test_config());
    assert!(!actor.ready_to_start_sync());
    actor.set_network_info(NetworkInfo {
        num_active_peers: 1,
        highest_height_peers: vec![FullPeerInfo { peer_id: 1, height: 10 }],
    });
    assert!(actor.ready_to_start_sync());
    let mut config = test_config();
    config.skip_sync_wait = true;
    let skipping = StateSyncActor::new(config);
    assert!(skipping.ready_to_start_sync());
}

#[test]
fn anchor_resolution_steps_off_the_genesis_epoch() {
    // Chain 1 <- 2 <- 3 <- 4 with genesis 1; blocks 1 and 2 lie in the
    // genesis epoch, blocks 3 and 4 in the epoch anchored at 2... the
    // walk-back of two blocks from the head's parent lands on block 1,
    // whose epoch starts at the genesis block, so resolution is retried
    // from the header head itself.
    let chain = ChainInfo {
        genesis_hash: 1,
        header_head_hash: 4,
        header_head_prev_hash: 3,
        headers: vec![
            HeaderInfo { hash: 1, prev_hash: 0, epoch_first_hash: 1 },
            HeaderInfo { hash: 2, prev_hash: 1, epoch_first_hash: 1 },
            HeaderInfo { hash: 3, prev_hash: 2, epoch_first_hash: 2 },
            HeaderInfo { hash: 4, prev_hash: 3, epoch_first_hash: 2 },
        ],
    };
    let actor = StateSyncActor::new(test_config());
    let anchor = actor.find_sync_hash(&chain);
    assert_eq!(anchor, Some(2));
    assert_ne!(anchor, Some(chain.genesis_hash));
}

#[test]
fn anchor_resolution_away_from_genesis_uses_the_walk_back() {
    let chain = ChainInfo {
        genesis_hash: 1,
        header_head_hash: 6,
        header_head_prev_hash: 5,
        headers: vec![
            HeaderInfo { hash: 3, prev_hash: 2, epoch_first_hash: 3 },
            HeaderInfo { hash: 4, prev_hash: 3, epoch_first_hash: 3 },
            HeaderInfo { hash: 5, prev_hash: 4, epoch_first_hash: 5 },
            HeaderInfo { hash: 6, prev_hash: 5, epoch_first_hash: 5 },
        ],
    };
    let actor = StateSyncActor::new(test_config());
    assert_eq!(actor.find_sync_hash(&chain), Some(3));
}

#[test]
fn anchor_resolution_fails_on_an_unknown_header() {
    let chain = ChainInfo {
        genesis_hash: 1,
        header_head_hash: 6,
        header_head_prev_hash: 5,
        headers: vec![HeaderInfo { hash: 6, prev_hash: 5, epoch_first_hash: 5 }],
    };
    let actor = StateSyncActor::new(test_config());
    assert_eq!(actor.find_sync_hash(&chain), None);
}

#[test]
fn shards_are_selected_in_order() {
    let cares = vec![true, false, true, true, false];
    assert_eq!(select_shards(&cares), vec![0, 2, 3]);
    assert_eq!(select_shards(&Vec::new()), Vec::<u64>::new());
}

#[test]
fn block_request_skips_blocks_already_held() {
    let actor = StateSyncActor::new(test_config());
    assert!(matches!(
        actor.request_block_by_hash(7, 1, Some(false)),
        Some(SyncAction::BlockRequest { hash: 7, peer_id: 1 })
    ));
    assert!(actor.request_block_by_hash(7, 1, Some(true)).is_none());
    assert!(actor.request_block_by_hash(7, 1, None).is_none());
}

#[test]
fn purge_happens_once_per_episode_and_never_on_archives() {
    let actor = StateSyncActor::new(test_config());
    assert!(actor.should_reset_data_pre_state_sync(true));
    assert!(!actor.should_reset_data_pre_state_sync(false));
    let mut config = test_config();
    config.archive = true;
    let archive = StateSyncActor::new(config);
    assert!(!archive.should_reset_data_pre_state_sync(true));
}

#[test]
fn completed_main_episode_enters_body_sync_with_ordered_actions() {
    let mut actor = state_sync_actor(7, 3, parts_tracker(2));
    actor.register_client();
    assert_eq!(actor.state_sync_anchor(), Some(7));
    let shards = actor.take_state_sync_shards();
    actor.apply_state_sync_result(7, shards, StateSyncResult::Completed);
    assert!(matches!(
        actor.sync_status,
        SyncStatus::BodySync { current_height: 0, highest_height: 0 }
    ));

    let actions = completion_actions(vec![21, 22], vec![31], vec![vec![41, 42], vec![], vec![43]]);
    assert_eq!(actions.len(), 3);
    assert!(matches!(&actions[0], SyncAction::SendChallenges(c) if *c == vec![21, 22]));
    assert!(matches!(&actions[1], SyncAction::ProcessAcceptedBlocks(b) if *b == vec![31]));
    assert!(matches!(&actions[2], SyncAction::RequestChunks(m) if *m == vec![41, 42, 43]));
}

#[test]
fn changed_result_persists_the_episode() {
    let mut actor = StateSyncActor::new(test_config());
    let mut shards = ShardSyncMap::new();
    shards.insert(3, ShardSyncDownload::new());
    actor.apply_state_sync_result(7, shards, StateSyncResult::Changed(true));
    match &actor.sync_status {
        SyncStatus::StateSync { sync_hash, shards } => {
            assert_eq!(*sync_hash, 7);
            assert_eq!(shards.len(), 1);
        }
        other => panic!("expected a state-sync phase, found {:?}", other),
    }
}

#[test]
fn unchanged_result_outside_state_sync_changes_nothing() {
    let mut actor = StateSyncActor::new(test_config());
    actor.apply_state_sync_result(7, ShardSyncMap::new(), StateSyncResult::Unchanged);
    assert!(matches!(actor.sync_status, SyncStatus::AwaitingPeers));
}

#[test]
fn unmatched_response_is_discarded_without_mutation() {
    let mut actor = StateSyncActor::new(test_config());
    assert_eq!(actor.locate_tracker(42, 1), TrackerMatch::NoMatch);
    let (notify, plan) = actor.plan_state_response(42, 1, true, Some(0));
    assert!(!notify);
    assert_eq!(plan, ResponsePlan::Discard);
    let directive = actor.handle(StateSyncActorRequests::StateResponse {
        shard_id: 1,
        sync_hash: 42,
        has_header: true,
        part_id: Some(0),
    });
    assert!(matches!(
        directive,
        HandleDirective::Respond { notify_driver: false, plan: ResponsePlan::Discard }
    ));
    assert!(matches!(actor.sync_status, SyncStatus::AwaitingPeers));
    assert_eq!(actor.catchup_state_syncs.entries.len(), 0);
}

#[test]
fn late_header_response_without_header_keeps_the_done_slot() {
    let actor = state_sync_actor(7, 3, header_done_tracker());
    let (notify, plan) = actor.plan_state_response(7, 3, false, None);
    assert!(!notify);
    assert_eq!(plan, ResponsePlan::Ignore);
    match &actor.sync_status {
        SyncStatus::StateSync { shards, .. } => {
            let t = shards.get(3).unwrap();
            assert!(t.downloads[0].done);
            assert!(!t.downloads[0].error);
        }
        other => panic!("expected a state-sync phase, found {:?}", other),
    }
}

#[test]
fn missing_header_marks_an_open_slot_errored() {
    let mut actor = state_sync_actor(7, 3, ShardSyncDownload::new());
    let (_, plan) = actor.plan_state_response(7, 3, false, None);
    assert_eq!(plan, ResponsePlan::MarkHeaderMissing);
    actor.record_missing_header(7, 3);
    match &actor.sync_status {
        SyncStatus::StateSync { shards, .. } => {
            let t = shards.get(3).unwrap();
            assert!(!t.downloads[0].done);
            assert!(t.downloads[0].error);
        }
        other => panic!("expected a state-sync phase, found {:?}", other),
    }
}

#[test]
fn header_apply_success_marks_the_slot_done() {
    let mut actor = state_sync_actor(7, 3, ShardSyncDownload::new());
    let (_, plan) = actor.plan_state_response(7, 3, true, None);
    assert_eq!(plan, ResponsePlan::ApplyHeader);
    actor.record_header_outcome(7, 3, true);
    let (_, plan) = actor.plan_state_response(7, 3, true, None);
    assert_eq!(plan, ResponsePlan::Ignore);
}

#[test]
fn out_of_range_part_index_is_rejected_without_mutation() {
    let actor = state_sync_actor(7, 3, parts_tracker(10));
    let (_, plan) = actor.plan_state_response(7, 3, false, Some(999));
    assert_eq!(plan, ResponsePlan::RejectPart { part_id: 999 });
    match &actor.sync_status {
        SyncStatus::StateSync { shards, .. } => {
            let t = shards.get(3).unwrap();
            assert_eq!(t.downloads.len(), 10);
            assert!(t.downloads.iter().all(|d| !d.done && !d.error));
        }
        other => panic!("expected a state-sync phase, found {:?}", other),
    }
}

#[test]
fn part_outcomes_fill_slots_and_never_regress() {
    let mut actor = state_sync_actor(7, 3, parts_tracker(3));
    let (notify, plan) = actor.plan_state_response(7, 3, false, Some(1));
    assert!(notify);
    assert_eq!(plan, ResponsePlan::ApplyPart { part_id: 1 });
    actor.record_part_outcome(7, 3, 1, true);
    // A duplicate response for the same part is ignored.
    let (_, plan) = actor.plan_state_response(7, 3, false, Some(1));
    assert_eq!(plan, ResponsePlan::Ignore);
    // A failing part is recorded as errored for the driver to retry.
    actor.record_part_outcome(7, 3, 2, false);
    match &actor.sync_status {
        SyncStatus::StateSync { shards, .. } => {
            let t = shards.get(3).unwrap();
            assert_eq!(t.status, ShardSyncStatus::StateDownloadParts);
            assert_eq!(t.downloads.len(), 3);
            assert!(t.downloads[1].done && !t.downloads[1].error);
            assert!(!t.downloads[2].done && t.downloads[2].error);
        }
        other => panic!("expected a state-sync phase, found {:?}", other),
    }
}

#[test]
fn responses_route_into_catchup_episodes() {
    let mut actor = StateSyncActor::new(test_config());
    actor.catchup_state_syncs.ensure_entry(9);
    actor
        .catchup_state_syncs
        .shards_mut(9)
        .insert(4, ShardSyncDownload::new());
    assert_eq!(actor.locate_tracker(9, 4), TrackerMatch::CatchupEpisode);
    let (notify, plan) = actor.plan_state_response(9, 4, true, Some(0));
    assert!(notify);
    assert_eq!(plan, ResponsePlan::ApplyHeader);
    actor.record_header_outcome(9, 4, false);
    let shards = actor.catchup_state_syncs.get(9).unwrap();
    let t = shards.get(4).unwrap();
    assert!(!t.downloads[0].done);
    assert!(t.downloads[0].error);
}

#[test]
fn a_tracker_in_both_maps_is_reported_as_ambiguous() {
    let mut actor = state_sync_actor(7, 3, ShardSyncDownload::new());
    actor.catchup_state_syncs.ensure_entry(7);
    actor
        .catchup_state_syncs
        .shards_mut(7)
        .insert(3, ShardSyncDownload::new());
    assert_eq!(actor.locate_tracker(7, 3), TrackerMatch::Ambiguous);
    assert_eq!(actor.locate_tracker(7, 5), TrackerMatch::NoMatch);
}

#[test]
fn catchup_entries_are_created_lazily_and_kept() {
    let mut actor = StateSyncActor::new(test_config());
    actor.catchup_state_syncs.ensure_entry(9);
    actor.catchup_state_syncs.ensure_entry(9);
    actor.catchup_state_syncs.ensure_entry(11);
    assert_eq!(actor.catchup_state_syncs.entries.len(), 2);
    actor.register_client();
    assert!(!actor.apply_catchup_state_sync_result(9, StateSyncResult::Unchanged));
    assert!(!actor.apply_catchup_state_sync_result(9, StateSyncResult::Changed(false)));
    assert!(actor.apply_catchup_state_sync_result(9, StateSyncResult::Completed));
    assert_eq!(actor.catchup_state_syncs.entries.len(), 2);
}

#[test]
fn handle_registers_the_client_and_stores_peer_snapshots() {
    let mut actor = StateSyncActor::new(test_config());
    assert!(matches!(
        actor.handle(StateSyncActorRequests::ClientAddr),
        HandleDirective::Handled
    ));
    assert!(actor.client_registered);
    let info = NetworkInfo {
        num_active_peers: 3,
        highest_height_peers: vec![FullPeerInfo { peer_id: 1, height: 10 }],
    };
    assert!(matches!(
        actor.handle(StateSyncActorRequests::NetworkInfo { network_info: info }),
        HandleDirective::Handled
    ));
    assert_eq!(actor.network_info.num_active_peers, 3);
    assert!(matches!(
        actor.handle(StateSyncActorRequests::ReceivedRequestedPart {
            part_id: 1,
            shard_id: 2,
            hash: 3
        }),
        HandleDirective::NotifyReceivedPart { part_id: 1, shard_id: 2, hash: 3 }
    ));
}

#[test]
fn taking_the_episode_shards_leaves_the_anchor_in_place() {
    let mut actor = state_sync_actor(7, 3, ShardSyncDownload::new());
    let shards = actor.take_state_sync_shards();
    assert_eq!(shards.len(), 1);
    match &actor.sync_status {
        SyncStatus::StateSync { sync_hash, shards } => {
            assert_eq!(*sync_hash, 7);
            assert_eq!(shards.len(), 0);
        }
        other => panic!("expected a state-sync phase, found {:?}", other),
    }
    // The driver's unchanged result puts the same trackers back.
    actor.apply_state_sync_result(7, shards, StateSyncResult::Unchanged);
    match &actor.sync_status {
        SyncStatus::StateSync { shards, .. } => assert_eq!(shards.len(), 1),
        other => panic!("expected a state-sync phase, found {:?}", other),
    }
}

#[test]
fn part_count_is_fixed_when_the_header_is_accepted() {
    let mut t = header_done_tracker();
    t.start_parts(10);
    assert_eq!(t.status, ShardSyncStatus::StateDownloadParts);
    assert_eq!(t.downloads.len(), 10);
    // Responses never resize the slots; only finishing changes the phase.
    let mut actor = state_sync_actor(7, 3, t);
    actor.record_part_outcome(7, 3, 9, true);
    match &actor.sync_status {
        SyncStatus::StateSync { shards, .. } => {
            assert_eq!(shards.get(3).unwrap().downloads.len(), 10);
        }
        other => panic!("expected a state-sync phase, found {:?}", other),
    }
}

#[test]
fn a_finished_tracker_ignores_further_responses() {
    let mut t = parts_tracker(1);
    t.apply_part_result(0, true);
    assert!(t.all_done());
    t.finish();
    let actor = state_sync_actor(7, 3, t);
    let (_, plan) = actor.plan_state_response(7, 3, true, Some(0));
    assert_eq!(plan, ResponsePlan::Ignore);
}
