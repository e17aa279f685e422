//! The assembled pipeline: fetch → conversion → verify-and-apply, joined
//! by bounded queues.
//!
//! The application's supervisor owns one `Pipeline` and drives it: every
//! step function here is one scheduling decision of the pipeline, and each
//! preserves the global well-formedness invariant from which the
//! end-to-end ordering guarantees follow. A step that would overfill a
//! queue or the conversion window refuses and changes nothing — that
//! refusal is the backpressure the caller turns into blocking.

use vstd::prelude::*;
use crate::apply::{ApplyPhase, ApplyStage, PersistPlan};
use crate::convert::{ConversionStage, PendingConversion, CONVERSION_LOOKAHEAD};
use crate::data::{
    InternalBlock, L2BlockAndUpdates, L2ConvertedBlockAndUpdates, L2SyncError, RawBlock,
};
use crate::felt::Felt;
use crate::fetch::{FetchStage, FetchedData};
use crate::order::{
    height_range, lemma_height_range_concat, lemma_height_range_drop_first,
    lemma_height_range_empty, lemma_height_range_push,
};
use crate::queue::BoundedQueue;

verus! {

/// Capacity of both stage-to-stage queues.
pub const QUEUE_CAPACITY: usize = 10;

/// The heights carried by a queue of fetched units, in queue order.
pub open spec fn unit_heights(s: Seq<L2BlockAndUpdates>) -> Seq<u64> {
    s.map_values(|u: L2BlockAndUpdates| u.block_n)
}

/// The heights carried by a queue of converted units, in queue order.
pub open spec fn conv_unit_heights(s: Seq<L2ConvertedBlockAndUpdates>) -> Seq<u64> {
    s.map_values(|u: L2ConvertedBlockAndUpdates| u.block_n)
}

/// The heights sitting in the conversion window, in window order.
pub open spec fn pending_heights(s: Seq<PendingConversion>) -> Seq<u64> {
    s.map_values(|p: PendingConversion| p.block_n)
}

/// The first height the apply stage has not consumed from its input queue:
/// its current slot while it is mid-block, its next slot when idle.
pub open spec fn apply_boundary(a: ApplyStage) -> u64 {
    if a.phase is Idle {
        a.next_block
    } else {
        (a.next_block + 1) as u64
    }
}

/// The height the apply stage is working on right now, if any.
pub open spec fn busy_heights(a: ApplyStage) -> Seq<u64> {
    if a.phase is Idle {
        Seq::empty()
    } else {
        seq![a.next_block]
    }
}

/// The three stages and the two queues between them.
pub struct Pipeline {
    pub fetch: FetchStage,
    pub fetch_queue: BoundedQueue<L2BlockAndUpdates>,
    pub conv: ConversionStage,
    pub conv_queue: BoundedQueue<L2ConvertedBlockAndUpdates>,
    pub apply: ApplyStage,
}

impl Pipeline {
    /// Global well-formedness: each stage is well formed, all started from
    /// the same height, and each queue carries exactly the consecutive
    /// heights between the stages it joins — so every height between what
    /// has been applied and what has been fetched sits in exactly one
    /// place.
    pub open spec fn wf(self) -> bool {
        &&& self.fetch.wf()
        &&& self.conv.wf()
        &&& self.apply.wf()
        &&& self.conv.start@ == self.fetch.start@
        &&& self.apply.start@ == self.fetch.start@
        &&& self.fetch_queue.inv()
        &&& self.conv_queue.inv()
        &&& !(self.apply.phase is Idle) ==> self.apply.next_block < u64::MAX
        &&& apply_boundary(self.apply) <= self.conv.next_output
        &&& self.conv.next_input <= self.fetch.next_height
        &&& unit_heights(self.fetch_queue@) == height_range(
            self.conv.next_input,
            self.fetch.next_height,
        )
        &&& conv_unit_heights(self.conv_queue@) == height_range(
            apply_boundary(self.apply),
            self.conv.next_output,
        )
    }

    /// A pipeline about to sync from `first_block`, with empty queues.
    pub fn new(first_block: u64, verify: bool) -> (r: Pipeline)
        ensures
            r.wf(),
            r.fetch.start@ == first_block,
            r.fetch.next_height == first_block,
            r.conv.next_input == first_block,
            r.conv.next_output == first_block,
            r.apply.next_block == first_block,
            r.apply.phase is Idle,
            r.apply.verify == verify,
            r.apply.applied@ == Seq::<u64>::empty(),
            r.fetch_queue@.len() == 0,
            r.conv_queue@.len() == 0,
            r.conv.pending@.len() == 0,
            r.fetch_queue.cap() == QUEUE_CAPACITY,
            r.conv_queue.cap() == QUEUE_CAPACITY,
    {
        let r = Pipeline {
            fetch: FetchStage::new(first_block),
            fetch_queue: BoundedQueue::new(QUEUE_CAPACITY),
            conv: ConversionStage::new(first_block),
            conv_queue: BoundedQueue::new(QUEUE_CAPACITY),
            apply: ApplyStage::new(first_block, verify),
        };
        proof {
            lemma_height_range_empty(first_block);
            assert(unit_heights(r.fetch_queue@) =~= Seq::<u64>::empty());
            assert(conv_unit_heights(r.conv_queue@) =~= Seq::<u64>::empty());
        }
        r
    }

    /// The gateway answered the fetch stage's current request. If the
    /// queue to the conversion stage is full, the response is handed back
    /// untouched and nothing moves — the fetch stage is blocked, not
    /// dropping or reordering anything. Otherwise the fetched unit enters
    /// the queue and the stage advances one height.
    pub fn step_fetch_response(&mut self, data: FetchedData) -> (r: Option<FetchedData>)
        requires
            old(self).wf(),
            old(self).fetch.next_height < u64::MAX,
        ensures
            final(self).wf(),
            old(self).fetch_queue@.len() == old(self).fetch_queue.cap() ==> {
                &&& r matches Some(d) && d == data
                &&& *final(self) == *old(self)
            },
            old(self).fetch_queue@.len() < old(self).fetch_queue.cap() ==> {
                &&& r is None
                &&& final(self).fetch.next_height == old(self).fetch.next_height + 1
                &&& final(self).fetch_queue@ == old(self).fetch_queue@.push(
                    L2BlockAndUpdates {
                        block_n: old(self).fetch.next_height,
                        block: data.block,
                        state_update: data.state_update,
                        class_update: data.class_update,
                    },
                )
            },
    {
        if self.fetch_queue.is_full() {
            return Some(data);
        }
        let unit = self.fetch.on_response(data);
        let ghost pushed_height = unit.block_n;
        let refused = self.fetch_queue.try_push(unit);
        proof {
            assert(refused is None);
            assert(unit_heights(final(self).fetch_queue@) =~= unit_heights(
                old(self).fetch_queue@,
            ).push(pushed_height));
            lemma_height_range_push(self.conv.next_input, old(self).fetch.next_height);
        }
        None
    }

    /// The gateway failed transiently for the fetch stage's current
    /// request: spend one retry, or surface the fatal retry-limit error.
    pub fn step_fetch_transient_error(&mut self) -> (r: Result<(), L2SyncError>)
        requires
            old(self).wf(),
        ensures
            final(self).wf(),
            old(self).fetch.retries < crate::fetch::FETCH_RETRY_LIMIT ==> r is Ok,
            old(self).fetch.retries >= crate::fetch::FETCH_RETRY_LIMIT ==> r
                == Result::<(), L2SyncError>::Err(L2SyncError::FetchRetryLimit),
            final(self).fetch.next_height == old(self).fetch.next_height,
            final(self).fetch_queue == old(self).fetch_queue,
            final(self).conv == old(self).conv,
            final(self).conv_queue == old(self).conv_queue,
            final(self).apply == old(self).apply,
    {
        self.fetch.on_transient_error()
    }

    /// Move the oldest fetched unit into the conversion window, handing
    /// its raw block back for a worker to convert. Refuses — changing
    /// nothing — while the window is at its lookahead bound (backpressure
    /// onto the fetch queue) or the queue is empty.
    pub fn step_convert_take(&mut self) -> (r: Option<(u64, RawBlock)>)
        requires
            old(self).wf(),
        ensures
            final(self).wf(),
            old(self).conv.pending@.len() >= CONVERSION_LOOKAHEAD ==> {
                &&& r is None
                &&& *final(self) == *old(self)
            },
            old(self).conv.pending@.len() < CONVERSION_LOOKAHEAD
                && old(self).fetch_queue@.len() > 0 ==> {
                &&& r matches Some(taken) && taken.0 == old(self).conv.next_input
                    && taken.1 == old(self).fetch_queue@[0].block
                &&& final(self).conv.next_input == old(self).conv.next_input + 1
                &&& final(self).fetch_queue@ == old(self).fetch_queue@.drop_first()
                &&& final(self).conv.pending@ == old(self).conv.pending@.push(
                    PendingConversion {
                        block_n: old(self).fetch_queue@[0].block_n,
                        state_update: old(self).fetch_queue@[0].state_update,
                        class_update: old(self).fetch_queue@[0].class_update,
                        converted: None,
                    },
                )
            },
            old(self).fetch_queue@.len() == 0 ==> {
                &&& r is None
                &&& *final(self) == *old(self)
            },
    {
        if self.conv.window_len() >= CONVERSION_LOOKAHEAD {
            return None;
        }
        proof {
            let q = old(self).fetch_queue@;
            if q.len() > 0 {
                assert(unit_heights(q).len() == q.len());
                assert(height_range(old(self).conv.next_input, old(self).fetch.next_height).len()
                    > 0);
                assert(old(self).conv.next_input < old(self).fetch.next_height);
                assert(unit_heights(q)[0] == q[0].block_n);
                assert(height_range(old(self).conv.next_input, old(self).fetch.next_height)[0]
                    == old(self).conv.next_input);
                assert(q[0].block_n == old(self).conv.next_input);
            }
        }
        match self.fetch_queue.pop() {
            Some(u) => {
                proof {
                    lemma_height_range_drop_first(
                        old(self).conv.next_input,
                        old(self).fetch.next_height,
                    );
                    assert(unit_heights(old(self).fetch_queue@.drop_first()) =~= unit_heights(
                        old(self).fetch_queue@,
                    ).drop_first());
                }
                let block_n = u.block_n;
                let raw = self.conv.start_conversion(u);
                Some((block_n, raw))
            },
            None => None,
        }
    }

    /// A worker delivered the converted block for `block_n`. Completions
    /// may arrive in any order; one that does not name a height currently
    /// in flight is refused.
    pub fn step_convert_complete(&mut self, block_n: u64, block: InternalBlock) -> (r: bool)
        requires
            old(self).wf(),
        ensures
            final(self).wf(),
            r == (old(self).conv.next_output <= block_n < old(self).conv.next_input
                && old(self).conv.pending@[block_n - old(self).conv.next_output].converted
                is None),
            r ==> final(self).conv.pending@[block_n - old(self).conv.next_output].converted
                == Some(block),
            !r ==> *final(self) == *old(self),
    {
        if self.conv.next_output <= block_n && block_n < self.conv.next_input {
            let idx: usize = (block_n - self.conv.next_output) as usize;
            if self.conv.slot_is_open(idx) {
                self.conv.complete(block_n, block);
                proof {
                    assert(pending_heights(final(self).conv.pending@) =~= pending_heights(
                        old(self).conv.pending@,
                    ));
                }
                return true;
            }
            return false;
        }
        false
    }

    /// Emit the oldest height of the conversion window downstream, if its
    /// conversion has completed and the queue to the apply stage has room.
    /// A full queue refuses the emission wholesale — backpressure onto the
    /// conversion window — so results still leave strictly in input order.
    pub fn step_convert_emit(&mut self) -> (r: bool)
        requires
            old(self).wf(),
        ensures
            final(self).wf(),
            r == (old(self).conv_queue@.len() < old(self).conv_queue.cap()
                && old(self).conv.ready()),
            r ==> {
                &&& final(self).conv.next_output == old(self).conv.next_output + 1
                &&& final(self).conv.pending@ == old(self).conv.pending@.drop_first()
                &&& final(self).conv_queue@ == old(self).conv_queue@.push(
                    final(self).conv_queue@.last(),
                )
                &&& final(self).conv_queue@.last().block_n == old(self).conv.next_output
                &&& Some(final(self).conv_queue@.last().block) == old(
                    self,
                ).conv.pending@[0].converted
                &&& final(self).conv_queue@.last().state_update == old(
                    self,
                ).conv.pending@[0].state_update
                &&& final(self).conv_queue@.last().class_update == old(
                    self,
                ).conv.pending@[0].class_update
            },
            !r ==> *final(self) == *old(self),
    {
        if self.conv_queue.is_full() {
            proof {
                assert(!(old(self).conv_queue@.len() < old(self).conv_queue.cap()));
            }
            return false;
        }
        match self.conv.try_emit() {
            Some(u) => {
                let ghost emitted_height = u.block_n;
                let refused = self.conv_queue.try_push(u);
                proof {
                    assert(refused is None);
                    assert(conv_unit_heights(final(self).conv_queue@) =~= conv_unit_heights(
                        old(self).conv_queue@,
                    ).push(emitted_height));
                    assert(old(self).conv.next_output < old(self).conv.next_input);
                    lemma_height_range_push(
                        apply_boundary(self.apply),
                        old(self).conv.next_output,
                    );
                }
                true
            },
            None => false,
        }
    }

    /// Begin the next block's apply slot: take the oldest converted unit —
    /// necessarily the exact height the apply stage expects — and issue its
    /// persistence plan. Refuses while the apply stage is mid-block or no
    /// unit is ready.
    pub fn step_apply_begin(&mut self) -> (r: Option<PersistPlan>)
        requires
            old(self).wf(),
            old(self).apply.phase is Idle,
        ensures
            final(self).wf(),
            old(self).conv_queue@.len() > 0 ==> {
                &&& r matches Some(p)
                &&& p.block_n == old(self).apply.next_block
                &&& p.block == old(self).conv_queue@[0].block
                &&& p.state_update == old(self).conv_queue@[0].state_update
                &&& p.class_update == old(self).conv_queue@[0].class_update
                &&& crate::data::same_storage_diffs(
                    p.storage_diffs@,
                    old(self).conv_queue@[0].state_update.state_diff.storage_diffs@,
                )
                &&& p.verify == old(self).apply.verify
                &&& p.compact == (old(self).apply.next_block % crate::apply::COMPACT_INTERVAL
                    == 0)
                &&& final(self).apply.phase is Received
                &&& final(self).apply.next_block == old(self).apply.next_block
            },
            old(self).conv_queue@.len() == 0 ==> {
                &&& r is None
                &&& *final(self) == *old(self)
            },
    {
        proof {
            let q = old(self).conv_queue@;
            if q.len() > 0 {
                assert(conv_unit_heights(q).len() == q.len());
                assert(height_range(apply_boundary(old(self).apply), old(self).conv.next_output)
                    .len() > 0);
                assert(old(self).apply.next_block < old(self).conv.next_output);
                assert(conv_unit_heights(q)[0] == q[0].block_n);
                assert(height_range(apply_boundary(old(self).apply), old(self).conv.next_output)[0]
                    == old(self).apply.next_block);
                assert(q[0].block_n == old(self).apply.next_block);
            }
        }
        match self.conv_queue.pop() {
            Some(u) => {
                proof {
                    lemma_height_range_drop_first(
                        old(self).apply.next_block,
                        old(self).conv.next_output,
                    );
                    assert(conv_unit_heights(old(self).conv_queue@.drop_first())
                        =~= conv_unit_heights(old(self).conv_queue@).drop_first());
                }
                let plan = self.apply.receive(u);
                Some(plan)
            },
            None => None,
        }
    }

    /// Record the commitment check for the block in the apply slot.
    pub fn step_apply_check(&mut self, declared_root: Felt, computed_root: Felt) -> (mismatch:
        bool)
        requires
            old(self).wf(),
            old(self).apply.phase is Received,
            old(self).apply.verify,
        ensures
            final(self).wf(),
            mismatch == (declared_root != computed_root),
            final(self).apply.phase == if mismatch {
                ApplyPhase::Unverified
            } else {
                ApplyPhase::Verified
            },
            final(self).apply.next_block == old(self).apply.next_block,
    {
        self.apply.record_check(declared_root, computed_root)
    }

    /// Record that the four concurrent actions of the block in the apply
    /// slot completed, whatever each write's outcome was.
    pub fn step_apply_persistence(
        &mut self,
        state_update_stored: bool,
        class_update_stored: bool,
        key_update_stored: bool,
    )
        requires
            old(self).wf(),
            if old(self).apply.verify {
                old(self).apply.phase is Verified || old(self).apply.phase is Unverified
            } else {
                old(self).apply.phase is Received
            },
        ensures
            final(self).wf(),
            final(self).apply.phase is Persisted,
            final(self).apply.next_block == old(self).apply.next_block,
    {
        self.apply.record_persistence(
            state_update_stored,
            class_update_stored,
            key_update_stored,
        );
    }

    /// Record the seal acknowledgment for the block in the apply slot and
    /// free the slot for the next height.
    pub fn step_apply_seal(&mut self, sealed_hash: Felt)
        requires
            old(self).wf(),
            old(self).apply.phase is Persisted,
        ensures
            final(self).wf(),
            final(self).apply.phase is Idle,
            final(self).apply.next_block == old(self).apply.next_block + 1,
            final(self).apply.last_block_hash == Some(sealed_hash),
            final(self).apply.applied@ == old(self).apply.applied@.push(
                old(self).apply.next_block,
            ),
    {
        self.apply.record_seal(sealed_hash);
    }
}

/// Order preservation, end to end: whatever interleaving of fetch
/// responses, out-of-order conversion completions and apply steps led to a
/// well-formed pipeline, the apply stage has processed exactly the heights
/// `start, start + 1, ...` in ascending order — never skipping, repeating
/// or reordering one.
pub proof fn lemma_order_preservation(p: Pipeline)
    requires
        p.wf(),
    ensures
        p.apply.applied@.len() == p.apply.next_block - p.fetch.start@,
        forall|i: int| 0 <= i < p.apply.applied@.len() ==> p.apply.applied@[i]
            == p.fetch.start@ + i,
        forall|i: int, j: int| 0 <= i < j < p.apply.applied@.len() ==> p.apply.applied@[i]
            < p.apply.applied@[j],
{
    crate::order::lemma_height_range_ascending(p.apply.start@, p.apply.next_block);
}

/// No height is lost or duplicated anywhere in the pipeline: the applied
/// heights, the apply slot, the two queues and the conversion window
/// together hold exactly the consecutive range of heights from the start
/// of the sync to the fetch stage's next request — stalling any stage
/// (backpressure) can only move heights between these places, never drop
/// one.
pub proof fn lemma_no_height_skipped_or_duplicated(p: Pipeline)
    requires
        p.wf(),
    ensures
        p.apply.applied@ + busy_heights(p.apply) + conv_unit_heights(p.conv_queue@)
            + pending_heights(p.conv.pending@) + unit_heights(p.fetch_queue@) == height_range(
            p.fetch.start@,
            p.fetch.next_height,
        ),
{
    let start = p.fetch.start@;
    let boundary = apply_boundary(p.apply);
    assert(p.apply.applied@ + busy_heights(p.apply) =~= height_range(start, boundary)) by {
        if p.apply.phase is Idle {
            assert(busy_heights(p.apply) =~= Seq::<u64>::empty());
        } else {
            lemma_height_range_push(start, p.apply.next_block);
        }
    }
    assert(pending_heights(p.conv.pending@) =~= height_range(
        p.conv.next_output,
        p.conv.next_input,
    ));
    lemma_height_range_concat(start, boundary, p.conv.next_output);
    lemma_height_range_concat(start, p.conv.next_output, p.conv.next_input);
    lemma_height_range_concat(start, p.conv.next_input, p.fetch.next_height);
    assert(p.apply.applied@ + busy_heights(p.apply) + conv_unit_heights(p.conv_queue@)
        + pending_heights(p.conv.pending@) + unit_heights(p.fetch_queue@) =~= height_range(
        start,
        p.fetch.next_height,
    ));
}

} // verus!
