//! The shared state store: the process-wide records other components read.
//!
//! The store is an explicitly constructed object handed to every component
//! that needs it. Concurrent access is the surrounding application's
//! business (one reader/writer lock per record); every function here is the
//! single-record critical section itself, so a reader sees each record
//! either wholly old or wholly new.

use vstd::prelude::*;
use crate::data::{
    InternalBlock, L2StateUpdate, PendingStateUpdate, StateUpdate, SyncStatus,
};
use crate::felt::Felt;

verus! {

/// The process-wide records of the sync core.
///
/// Written only by the verify-and-apply stage (`state_update`, `sync_status`)
/// and the pending poller (`pending_block`, `pending_state_update`); both may
/// refresh `highest_block`. Read by any number of external consumers.
pub struct StateStore {
    /// The current syncing status, either verified, unverified or pending.
    pub sync_status: SyncStatus,
    /// The latest Layer-2 state update the node considers verified.
    pub state_update: L2StateUpdate,
    /// The most recent (hash, number) pair observed from the gateway,
    /// pending or sealed; used for head tracking.
    pub highest_block: (Felt, u64),
    /// The provisional block, if the last poll found one applicable.
    pub pending_block: Option<InternalBlock>,
    /// The provisional state update, refreshed together with the block.
    pub pending_state_update: Option<PendingStateUpdate>,
}

/// What `update_l2` leaves in the store: the state update is replaced
/// last-writer-wins, and the status flips to unverified exactly when the
/// update's height has reached the last Layer-1-confirmed height.
pub open spec fn spec_update_l2(
    s: StateStore,
    state_update: L2StateUpdate,
    last_l1_state_update_block: u64,
) -> StateStore {
    StateStore {
        state_update: state_update,
        sync_status: if state_update.block_number >= last_l1_state_update_block {
            SyncStatus::SyncUnverifiedState
        } else {
            s.sync_status
        },
        ..s
    }
}

impl StateStore {
    /// A fresh store, as initialized at startup: defaults everywhere.
    pub fn new() -> (r: StateStore)
        ensures
            r.sync_status == SyncStatus::SyncVerifiedState,
            r.state_update == (L2StateUpdate {
                block_number: 0,
                global_root: Felt::spec_zero(),
                block_hash: Felt::spec_zero(),
            }),
            r.highest_block == (Felt::spec_zero(), 0u64),
            r.pending_block is None,
            r.pending_state_update is None,
    {
        StateStore {
            sync_status: SyncStatus::SyncVerifiedState,
            state_update: L2StateUpdate {
                block_number: 0,
                global_root: Felt::zero(),
                block_hash: Felt::zero(),
            },
            highest_block: (Felt::zero(), 0),
            pending_block: None,
            pending_state_update: None,
        }
    }

    /// Snapshot of the most recent (hash, number) observed from the gateway.
    pub fn get_highest_block_hash_and_number(&self) -> (r: (Felt, u64))
        ensures
            r == self.highest_block,
    {
        self.highest_block
    }

    /// Snapshot of the provisional block, if any.
    pub fn get_pending_block(&self) -> (r: &Option<InternalBlock>)
        ensures
            r == &self.pending_block,
    {
        &self.pending_block
    }

    /// Snapshot of the provisional state update, if any.
    pub fn get_pending_state_update(&self) -> (r: &Option<PendingStateUpdate>)
        ensures
            r == &self.pending_state_update,
    {
        &self.pending_state_update
    }

    /// Snapshot of the latest verified Layer-2 state update.
    pub fn get_state_update(&self) -> (r: L2StateUpdate)
        ensures
            r == self.state_update,
    {
        self.state_update
    }

    /// Snapshot of the current syncing status.
    pub fn get_sync_status(&self) -> (r: SyncStatus)
        ensures
            r == self.sync_status,
    {
        self.sync_status
    }

    /// Update the Layer-2 state with the latest data.
    ///
    /// `last_l1_state_update_block` is the height of the last state update
    /// confirmed on Layer 1, an external input owned by the Layer-1 tracker.
    pub fn update_l2(
        &mut self,
        state_update: L2StateUpdate,
        last_l1_state_update_block: u64,
    )
        ensures
            *final(self) == spec_update_l2(*old(self), state_update, last_l1_state_update_block),
    {
        self.state_update = state_update;
        if state_update.block_number >= last_l1_state_update_block {
            self.sync_status = SyncStatus::SyncUnverifiedState;
        }
    }

    /// Record the root the commitment engine computed for a block, and
    /// return it for comparison against the block's declared root.
    ///
    /// The commitment engine itself is an external collaborator: it is a
    /// pure, deterministic function of the state diff and the height, and
    /// the application hands its result in as `computed_root`. The store is
    /// updated with that root whether or not it matches the declared one.
    pub fn verify_l2(
        &mut self,
        block_number: u64,
        state_update: &StateUpdate,
        computed_root: Felt,
        last_l1_state_update_block: u64,
    ) -> (r: Felt)
        ensures
            r == computed_root,
            *final(self) == spec_update_l2(
                *old(self),
                L2StateUpdate {
                    block_number: block_number,
                    global_root: computed_root,
                    block_hash: state_update.block_hash,
                },
                last_l1_state_update_block,
            ),
    {
        let block_hash = state_update.block_hash;
        self.update_l2(
            L2StateUpdate { block_number, global_root: computed_root, block_hash },
            last_l1_state_update_block,
        );
        computed_root
    }

    /// Refresh head tracking and, when applicable, the pending view, from
    /// one tick of the pending poller.
    ///
    /// The application performs the gateway calls and hands in: the
    /// provisional `block`, the height the gateway resolved for the block's
    /// parent hash (`resolved_number`), the node's current best local head
    /// (`best_hash`), the converted form of the provisional block, and the
    /// provisional state update — the latter two only fetched/computed when
    /// the parent matches the local head (see [`pending_matches`]).
    ///
    /// The pending view `(pending_block, pending_state_update)` is replaced
    /// wholesale or left wholly alone — never updated partially — and head
    /// tracking is refreshed either way.
    pub fn update_starknet_data(
        &mut self,
        parent_block_hash: Felt,
        resolved_number: u64,
        best_hash: Felt,
        converted: Option<InternalBlock>,
        state_update: Option<PendingStateUpdate>,
    )
        requires
            parent_block_hash == best_hash ==> converted is Some && state_update is Some,
        ensures
            parent_block_hash == best_hash ==> {
                &&& final(self).pending_block == converted
                &&& final(self).pending_state_update == state_update
            },
            parent_block_hash != best_hash ==> {
                &&& final(self).pending_block == old(self).pending_block
                &&& final(self).pending_state_update == old(self).pending_state_update
            },
            final(self).highest_block == (parent_block_hash, resolved_number),
            final(self).state_update == old(self).state_update,
            final(self).sync_status == old(self).sync_status,
    {
        if parent_block_hash == best_hash {
            self.pending_block = converted;
            self.pending_state_update = state_update;
        }
        self.highest_block = (parent_block_hash, resolved_number);
    }
}

/// Whether the provisional block extends the node's current best local
/// head; only then is the pending view projection applicable, and only then
/// does the poller fetch the provisional state update.
pub fn pending_matches(parent_block_hash: Felt, best_hash: Felt) -> (r: bool)
    ensures
        r == (parent_block_hash == best_hash),
{
    parent_block_hash == best_hash
}

/// Status derivation is idempotent: applying the same state update twice
/// leaves exactly the state one application leaves — repeated identical
/// input cannot make the status oscillate.
pub proof fn lemma_update_l2_idempotent(
    s: StateStore,
    state_update: L2StateUpdate,
    last_l1_state_update_block: u64,
)
    ensures
        spec_update_l2(
            spec_update_l2(s, state_update, last_l1_state_update_block),
            state_update,
            last_l1_state_update_block,
        ) == spec_update_l2(s, state_update, last_l1_state_update_block),
{
}

/// A state update whose height has reached the last Layer-1-confirmed
/// height flips the status to unverified.
pub proof fn lemma_update_l2_unverified(
    s: StateStore,
    state_update: L2StateUpdate,
    last_l1_state_update_block: u64,
)
    requires
        state_update.block_number >= last_l1_state_update_block,
    ensures
        spec_update_l2(s, state_update, last_l1_state_update_block).sync_status
            == SyncStatus::SyncUnverifiedState,
{
}

/// Pending view atomicity: one poller tick leaves the pair
/// `(pending_block, pending_state_update)` either wholly as it was or
/// wholly replaced by the new pair — a reader can never observe the old
/// block beside the new state update or the reverse.
pub proof fn lemma_pending_view_atomic(
    pre: StateStore,
    post: StateStore,
    parent_block_hash: Felt,
    best_hash: Felt,
    converted: Option<InternalBlock>,
    state_update: Option<PendingStateUpdate>,
)
    requires
        parent_block_hash == best_hash ==> {
            &&& post.pending_block == converted
            &&& post.pending_state_update == state_update
        },
        parent_block_hash != best_hash ==> {
            &&& post.pending_block == pre.pending_block
            &&& post.pending_state_update == pre.pending_state_update
        },
    ensures
        (post.pending_block, post.pending_state_update)
            == (pre.pending_block, pre.pending_state_update)
        || (post.pending_block, post.pending_state_update)
            == (converted, state_update),
{
}

} // verus!
