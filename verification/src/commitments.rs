//! The commitment state diff: the normalized projection of a state update
//! handed to the commitment engine.
//!
//! The engine itself — the Merkle-tree computation that turns this
//! projection and a height into a global root — is an external
//! collaborator, consumed as a pure black-box function by the application;
//! only the projection it is fed is built (and pinned down) here.

use vstd::prelude::*;
use crate::data::{copy_storage_diffs, copy_vec, same_storage_diffs, StateUpdate, StorageDiff};
use crate::felt::Felt;

verus! {

/// The input of the commitment engine: the storage, class and nonce
/// changes of one block, detached from the update they came from. Derived,
/// never stored.
pub struct CommitmentStateDiff {
    pub storage_updates: Vec<StorageDiff>,
    pub class_updates: Vec<Felt>,
    pub nonce_updates: Vec<(Felt, u64)>,
}

/// Project a state update onto the commitment engine's input: exactly the
/// update's storage diffs, declared classes and nonce changes, nothing
/// added, dropped or reordered.
pub fn build_commitment_state_diff(state_update: &StateUpdate) -> (csd: CommitmentStateDiff)
    ensures
        same_storage_diffs(csd.storage_updates@, state_update.state_diff.storage_diffs@),
        csd.class_updates@ == state_update.state_diff.declared_classes@,
        csd.nonce_updates@ == state_update.state_diff.nonces@,
{
    CommitmentStateDiff {
        storage_updates: copy_storage_diffs(&state_update.state_diff.storage_diffs),
        class_updates: copy_vec(&state_update.state_diff.declared_classes),
        nonce_updates: copy_vec(&state_update.state_diff.nonces),
    }
}

} // verus!
