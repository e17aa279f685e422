use l2_sync::data::{
    BlockHeader, InternalBlock, L2StateUpdate, PendingStateUpdate, StateDiff, StateUpdate,
    StorageDiff, SyncStatus,
};
use l2_sync::felt::Felt;
use l2_sync::store::{pending_matches, StateStore};

fn felt(n: u64) -> Felt {
    Felt::from_low(n)
}

fn internal_block(n: u64) -> InternalBlock {
    InternalBlock {
        header: BlockHeader {
            parent_block_hash: felt(n.wrapping_sub(1)),
            block_number: n,
            global_state_root: felt(1000 + n),
            transaction_count: 0,
        },
        transactions: vec![],
    }
}

fn pending_update(n: u64) -> PendingStateUpdate {
    PendingStateUpdate {
        old_root: felt(1000 + n),
        state_diff: StateDiff {
            storage_diffs: vec![StorageDiff { contract_address: felt(7), entries: vec![] }],
            declared_classes: vec![],
            nonces: vec![],
        },
    }
}

#[test]
fn fresh_store_has_defaults() {
    let s = StateStore::new();
    assert_eq!(s.get_sync_status(), SyncStatus::SyncVerifiedState);
    assert_eq!(s.get_state_update().block_number, 0);
    assert_eq!(s.get_state_update().global_root, Felt::zero());
    assert_eq!(s.get_highest_block_hash_and_number(), (Felt::zero(), 0));
    assert!(s.get_pending_block().is_none());
    assert!(s.get_pending_state_update().is_none());
}

#[test]
fn status_flips_to_unverified_at_l1_height() {
    let mut s = StateStore::new();
    let update = L2StateUpdate { block_number: 20, global_root: felt(1), block_hash: felt(2) };
    // Height 20 has reached the Layer-1-confirmed height 20.
    s.update_l2(update, 20);
    assert_eq!(s.get_sync_status(), SyncStatus::SyncUnverifiedState);
    assert_eq!(s.get_state_update(), update);
}

#[test]
fn status_keeps_verified_below_l1_height() {
    let mut s = StateStore::new();
    let update = L2StateUpdate { block_number: 5, global_root: felt(1), block_hash: felt(2) };
    s.update_l2(update, 20);
    assert_eq!(s.get_sync_status(), SyncStatus::SyncVerifiedState);
    assert_eq!(s.get_state_update(), update);
}

#[test]
fn repeated_identical_update_does_not_oscillate() {
    let mut s = StateStore::new();
    let update = L2StateUpdate { block_number: 20, global_root: felt(1), block_hash: felt(2) };
    s.update_l2(update, 20);
    let status_once = s.get_sync_status();
    let state_once = s.get_state_update();
    let highest_once = s.get_highest_block_hash_and_number();
    // Re-applying the very same update changes nothing.
    s.update_l2(update, 20);
    assert_eq!(s.get_sync_status(), status_once);
    assert_eq!(s.get_state_update(), state_once);
    assert_eq!(s.get_highest_block_hash_and_number(), highest_once);
    assert_eq!(status_once, SyncStatus::SyncUnverifiedState);
}

#[test]
fn verify_l2_records_computed_root() {
    let mut s = StateStore::new();
    let su = StateUpdate {
        block_hash: felt(77),
        new_root: felt(1077),
        old_root: felt(1076),
        state_diff: StateDiff {
            storage_diffs: vec![],
            declared_classes: vec![],
            nonces: vec![],
        },
    };
    let root = s.verify_l2(77, &su, felt(4242), 0);
    assert_eq!(root, felt(4242));
    let recorded = s.get_state_update();
    assert_eq!(recorded.block_number, 77);
    assert_eq!(recorded.global_root, felt(4242));
    assert_eq!(recorded.block_hash, felt(77));
    assert_eq!(s.get_sync_status(), SyncStatus::SyncUnverifiedState);
}

#[test]
fn applicable_poll_replaces_pending_view_wholesale() {
    let mut s = StateStore::new();
    // An older pending view is in place.
    s.update_starknet_data(felt(1), 1, felt(1), Some(internal_block(2)), Some(pending_update(2)));
    assert_eq!(s.get_pending_block().as_ref(), Some(&internal_block(2)));

    // A newer applicable poll replaces both halves together.
    assert!(pending_matches(felt(5), felt(5)));
    s.update_starknet_data(felt(5), 5, felt(5), Some(internal_block(6)), Some(pending_update(6)));
    assert_eq!(s.get_pending_block().as_ref(), Some(&internal_block(6)));
    assert_eq!(s.get_pending_state_update().as_ref(), Some(&pending_update(6)));
    assert_eq!(s.get_highest_block_hash_and_number(), (felt(5), 5));
}

#[test]
fn inapplicable_poll_only_refreshes_head_tracking() {
    let mut s = StateStore::new();
    s.update_starknet_data(felt(1), 1, felt(1), Some(internal_block(2)), Some(pending_update(2)));

    // The provisional block does not extend the local head: the pending
    // pair stays wholly old — never half old, half new.
    assert!(!pending_matches(felt(9), felt(1)));
    s.update_starknet_data(felt(9), 9, felt(1), None, None);
    assert_eq!(s.get_pending_block().as_ref(), Some(&internal_block(2)));
    assert_eq!(s.get_pending_state_update().as_ref(), Some(&pending_update(2)));
    // Head tracking is refreshed even so.
    assert_eq!(s.get_highest_block_hash_and_number(), (felt(9), 9));
}

#[test]
fn poll_never_touches_verified_state() {
    let mut s = StateStore::new();
    let update = L2StateUpdate { block_number: 20, global_root: felt(1), block_hash: felt(2) };
    s.update_l2(update, 30);
    s.update_starknet_data(felt(5), 5, felt(5), Some(internal_block(6)), Some(pending_update(6)));
    assert_eq!(s.get_state_update(), update);
    assert_eq!(s.get_sync_status(), SyncStatus::SyncVerifiedState);
}
