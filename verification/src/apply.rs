//! The verify-and-apply stage: the single point of truth for apply order.
//!
//! Units arrive strictly in height order. For each unit the stage walks the
//! per-block state machine Received → (optionally Verified | Unverified) →
//! Persisted → back to idle once the seal acknowledgment arrives; block
//! N + 1 is never received before block N's seal has completed. The
//! commitment engine, the four concurrent persistence/notification actions
//! and the seal request are performed by the application, which reports
//! their outcomes to the step functions here.

use vstd::prelude::*;
use crate::data::{
    copy_storage_diffs, same_storage_diffs, ContractClassData, InternalBlock,
    L2ConvertedBlockAndUpdates, StateUpdate, StorageDiff,
};
use crate::felt::Felt;
use crate::order::{height_range, lemma_height_range_push};

verus! {

/// Storage is compacted every this many blocks, as a fire-and-forget
/// maintenance side effect.
pub const COMPACT_INTERVAL: u64 = 1000;

/// Whether applying `block_n` must trigger a storage compaction: exactly at
/// every multiple of [`COMPACT_INTERVAL`], and at no other height.
pub fn should_compact(block_n: u64) -> (r: bool)
    ensures
        r == (block_n % COMPACT_INTERVAL == 0),
{
    block_n % COMPACT_INTERVAL == 0
}

/// Whether the recomputed state commitment disagrees with the root the
/// block declares. A mismatch is logged, never fatal: the node keeps
/// syncing on an unverified basis, but the disagreement must be observable.
pub fn verification_mismatch(declared_root: Felt, computed_root: Felt) -> (r: bool)
    ensures
        r == (declared_root != computed_root),
{
    declared_root != computed_root
}

/// Where the stage stands inside the current block's state machine.
#[derive(Clone, Copy, Debug, PartialEq, Eq, Structural)]
pub enum ApplyPhase {
    /// Between blocks: ready to receive the next height.
    Idle,
    /// A unit was received and its persistence plan issued.
    Received,
    /// The recomputed commitment matched the declared root.
    Verified,
    /// The recomputed commitment disagreed with the declared root.
    Unverified,
    /// All four persistence/notification actions have completed.
    Persisted,
}

/// The payloads of the four independent actions run for one block, plus
/// whether this height triggers compaction. All four are initiated only
/// once the block's ordering slot is reached.
pub struct PersistPlan {
    pub block_n: u64,
    /// Handed to the downstream block channel (triggers local import).
    pub block: InternalBlock,
    /// Persisted as the block's state update.
    pub state_update: StateUpdate,
    /// Persisted as the block's per-storage-key updates.
    pub storage_diffs: Vec<StorageDiff>,
    /// Persisted as the block's class updates.
    pub class_update: Vec<ContractClassData>,
    /// Whether the state commitment is to be recomputed and checked.
    pub verify: bool,
    /// Whether this height triggers a storage compaction.
    pub compact: bool,
}

/// The verify-and-apply stage's state.
pub struct ApplyStage {
    /// The height whose ordering slot is next (or current, while busy).
    pub next_block: u64,
    /// The hash the sealing collaborator returned for the last sealed
    /// block, once one exists.
    pub last_block_hash: Option<Felt>,
    /// Whether state commitments are recomputed and checked.
    pub verify: bool,
    /// Which step of the current block's state machine is next.
    pub phase: ApplyPhase,
    /// The first height this sync run started from.
    pub start: Ghost<u64>,
    /// Every height fully applied (through seal), in apply order.
    pub applied: Ghost<Seq<u64>>,
}

/// The fields `record_check` may not touch: everything except the phase.
pub open spec fn same_but_phase(pre: ApplyStage, post: ApplyStage) -> bool {
    &&& post.next_block == pre.next_block
    &&& post.last_block_hash == pre.last_block_hash
    &&& post.verify == pre.verify
    &&& post.start == pre.start
    &&& post.applied == pre.applied
}

/// The transition recorded when the four persistence/notification actions
/// have completed, whatever their individual outcomes were.
pub open spec fn persisted_transition(pre: ApplyStage, post: ApplyStage) -> bool {
    &&& post.phase is Persisted
    &&& same_but_phase(pre, post)
}

impl ApplyStage {
    /// Well-formedness: what has been applied is exactly the consecutive
    /// run of heights from the start of the sync up to `next_block`.
    pub open spec fn wf(self) -> bool {
        &&& self.start@ <= self.next_block
        &&& self.applied@ == height_range(self.start@, self.next_block)
    }

    /// An idle apply stage expecting `first_block`, with nothing applied.
    pub fn new(first_block: u64, verify: bool) -> (r: ApplyStage)
        ensures
            r.wf(),
            r.next_block == first_block,
            r.last_block_hash is None,
            r.verify == verify,
            r.phase is Idle,
            r.start@ == first_block,
            r.applied@ == Seq::<u64>::empty(),
    {
        let r = ApplyStage {
            next_block: first_block,
            last_block_hash: None,
            verify,
            phase: ApplyPhase::Idle,
            start: Ghost(first_block),
            applied: Ghost(Seq::empty()),
        };
        proof {
            assert(r.applied@ =~= height_range(first_block, first_block));
        }
        r
    }

    /// Receive the next converted unit — strictly in height order — and
    /// issue the block's persistence plan. The plan is a pure projection of
    /// the unit: it does not depend on any later verification outcome.
    pub fn receive(&mut self, u: L2ConvertedBlockAndUpdates) -> (p: PersistPlan)
        requires
            old(self).wf(),
            old(self).phase is Idle,
            u.block_n == old(self).next_block,
        ensures
            final(self).wf(),
            final(self).phase is Received,
            same_but_phase(*old(self), *final(self)),
            p.block_n == u.block_n,
            p.block == u.block,
            p.state_update == u.state_update,
            same_storage_diffs(p.storage_diffs@, u.state_update.state_diff.storage_diffs@),
            p.class_update == u.class_update,
            p.verify == old(self).verify,
            p.compact == (u.block_n % COMPACT_INTERVAL == 0),
    {
        let L2ConvertedBlockAndUpdates { block_n, block, state_update, class_update } = u;
        let storage_diffs = copy_storage_diffs(&state_update.state_diff.storage_diffs);
        let compact = should_compact(block_n);
        self.phase = ApplyPhase::Received;
        PersistPlan {
            block_n,
            block,
            state_update,
            storage_diffs,
            class_update,
            verify: self.verify,
            compact,
        }
    }

    /// Record the commitment check for the current block. Only called when
    /// verification is enabled; a mismatch moves the block to `Unverified`
    /// instead of `Verified` but is otherwise without consequence — the
    /// block still persists and seals.
    pub fn record_check(&mut self, declared_root: Felt, computed_root: Felt) -> (mismatch:
        bool)
        requires
            old(self).wf(),
            old(self).phase is Received,
            old(self).verify,
        ensures
            final(self).wf(),
            mismatch == (declared_root != computed_root),
            final(self).phase == if declared_root != computed_root {
                ApplyPhase::Unverified
            } else {
                ApplyPhase::Verified
            },
            same_but_phase(*old(self), *final(self)),
    {
        let mismatch = verification_mismatch(declared_root, computed_root);
        self.phase = if mismatch { ApplyPhase::Unverified } else { ApplyPhase::Verified };
        mismatch
    }

    /// Record that the four concurrent actions for the current block have
    /// completed. Each persistence write is independently best-effort: a
    /// `false` outcome is logged by the caller and neither rolls back the
    /// other writes nor stops the block from reaching its seal step.
    pub fn record_persistence(
        &mut self,
        state_update_stored: bool,
        class_update_stored: bool,
        key_update_stored: bool,
    )
        requires
            old(self).wf(),
            if old(self).verify {
                old(self).phase is Verified || old(self).phase is Unverified
            } else {
                old(self).phase is Received
            },
        ensures
            final(self).wf(),
            persisted_transition(*old(self), *final(self)),
    {
        let _ = state_update_stored;
        let _ = class_update_stored;
        let _ = key_update_stored;
        self.phase = ApplyPhase::Persisted;
    }

    /// Record the sealing collaborator's acknowledgment for the current
    /// block and advance to the next height. Sealing is synchronous with
    /// apply order: the next block cannot be received before this ran.
    pub fn record_seal(&mut self, sealed_hash: Felt)
        requires
            old(self).wf(),
            old(self).phase is Persisted,
            old(self).next_block < u64::MAX,
        ensures
            final(self).wf(),
            final(self).phase is Idle,
            final(self).next_block == old(self).next_block + 1,
            final(self).last_block_hash == Some(sealed_hash),
            final(self).verify == old(self).verify,
            final(self).start@ == old(self).start@,
            final(self).applied@ == old(self).applied@.push(old(self).next_block),
    {
        let block_n = self.next_block;
        self.last_block_hash = Some(sealed_hash);
        self.next_block = block_n + 1;
        self.phase = ApplyPhase::Idle;
        proof {
            self.applied@ = self.applied@.push(block_n);
            lemma_height_range_push(self.start@, block_n);
        }
    }
}

/// Verification independence: from a matching and from a mismatching
/// commitment check — the stage standing at `Verified` or at `Unverified` —
/// recording the completed persistence actions leads to the very same
/// state, so a mismatch neither blocks persistence nor the seal step.
pub proof fn lemma_verification_independent(
    pre_ok: ApplyStage,
    pre_mismatch: ApplyStage,
    post_ok: ApplyStage,
    post_mismatch: ApplyStage,
)
    requires
        pre_ok.phase is Verified,
        pre_mismatch.phase is Unverified,
        same_but_phase(pre_ok, pre_mismatch),
        persisted_transition(pre_ok, post_ok),
        persisted_transition(pre_mismatch, post_mismatch),
    ensures
        post_ok == post_mismatch,
{
}

/// Persistence failure isolation: whatever combination of write outcomes
/// two runs of the persistence step report for the same block, the stage
/// ends in the same `Persisted` state — a failed class-update write keeps
/// neither the state-update write's record nor the seal step from
/// happening, and the pipeline's advance does not depend on any of the
/// three outcomes.
pub proof fn lemma_persistence_failure_isolated(
    pre: ApplyStage,
    post_all_ok: ApplyStage,
    post_some_failed: ApplyStage,
)
    requires
        persisted_transition(pre, post_all_ok),
        persisted_transition(pre, post_some_failed),
    ensures
        post_all_ok == post_some_failed,
        post_all_ok.phase is Persisted,
{
}

/// The apply stage processes heights in exactly ascending, gap-free order:
/// the `i`-th block ever applied is height `start + i`.
pub proof fn lemma_apply_order(a: ApplyStage)
    requires
        a.wf(),
    ensures
        a.applied@.len() == a.next_block - a.start@,
        forall|i: int| 0 <= i < a.applied@.len() ==> a.applied@[i] == a.start@ + i,
{
}

} // verus!
