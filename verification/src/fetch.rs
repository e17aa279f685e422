//! The fetch stage: sequentially requests each height from the gateway,
//! with a bounded retry budget per height, and emits an ordered, gap-free
//! sequence of fetched units.
//!
//! The gateway calls themselves are the application's business; it reports
//! each call's outcome to [`FetchStage::on_response`] or
//! [`FetchStage::on_transient_error`], and forwards the unit the former
//! returns to the conversion stage.

use vstd::prelude::*;
use crate::data::{
    ContractClassData, L2BlockAndUpdates, L2SyncError, RawBlock, StateUpdate,
};
use crate::order::{height_range, lemma_height_range_push};

verus! {

/// How many transient provider failures one height may absorb before the
/// fetch stage surfaces a fatal `FetchRetryLimit` error.
pub const FETCH_RETRY_LIMIT: u32 = 10;

/// One height's worth of raw gateway responses, as collected by the
/// application for the height the stage is currently requesting.
pub struct FetchedData {
    pub block: RawBlock,
    pub state_update: StateUpdate,
    pub class_update: Vec<ContractClassData>,
}

/// The fetch stage's state: which height to request next, how often that
/// height has failed so far, and (in ghost) every height emitted so far.
pub struct FetchStage {
    /// The height the stage requests next.
    pub next_height: u64,
    /// Transient failures the current height has seen so far.
    pub retries: u32,
    /// The first height this sync run started from.
    pub start: Ghost<u64>,
    /// The heights emitted so far, in emission order.
    pub emitted: Ghost<Seq<u64>>,
}

impl FetchStage {
    /// Well-formedness: everything from `start` up to `next_height` has
    /// been emitted, in ascending order, with no gap and no duplicate.
    pub open spec fn wf(self) -> bool {
        &&& self.start@ <= self.next_height
        &&& self.emitted@ == height_range(self.start@, self.next_height)
        &&& self.retries <= FETCH_RETRY_LIMIT
    }

    /// A fetch stage about to request `first_block`, with nothing emitted.
    pub fn new(first_block: u64) -> (r: FetchStage)
        ensures
            r.wf(),
            r.next_height == first_block,
            r.start@ == first_block,
            r.emitted@ == Seq::<u64>::empty(),
            r.retries == 0,
    {
        let r = FetchStage {
            next_height: first_block,
            retries: 0,
            start: Ghost(first_block),
            emitted: Ghost(Seq::empty()),
        };
        proof {
            assert(r.emitted@ =~= height_range(first_block, first_block));
        }
        r
    }

    /// The gateway answered for the current height: build the unit for the
    /// conversion stage, reset the retry budget, and advance by exactly one
    /// height — the stage never skips and never repeats a height.
    pub fn on_response(&mut self, data: FetchedData) -> (u: L2BlockAndUpdates)
        requires
            old(self).wf(),
            old(self).next_height < u64::MAX,
        ensures
            final(self).wf(),
            u.block_n == old(self).next_height,
            u.block == data.block,
            u.state_update == data.state_update,
            u.class_update == data.class_update,
            final(self).next_height == old(self).next_height + 1,
            final(self).retries == 0,
            final(self).start@ == old(self).start@,
            final(self).emitted@ == old(self).emitted@.push(old(self).next_height),
    {
        let block_n = self.next_height;
        self.next_height = block_n + 1;
        self.retries = 0;
        proof {
            self.emitted@ = self.emitted@.push(block_n);
            lemma_height_range_push(self.start@, block_n);
        }
        L2BlockAndUpdates {
            block_n,
            block: data.block,
            state_update: data.state_update,
            class_update: data.class_update,
        }
    }

    /// The gateway failed transiently for the current height: spend one
    /// retry if any budget is left, otherwise surface the fatal
    /// `FetchRetryLimit` error. The requested height never changes, so a
    /// transient failure can never cause a height to be skipped.
    pub fn on_transient_error(&mut self) -> (r: Result<(), L2SyncError>)
        requires
            old(self).wf(),
        ensures
            final(self).wf(),
            final(self).next_height == old(self).next_height,
            final(self).start@ == old(self).start@,
            final(self).emitted@ == old(self).emitted@,
            old(self).retries < FETCH_RETRY_LIMIT ==> {
                &&& r is Ok
                &&& final(self).retries == old(self).retries + 1
            },
            old(self).retries >= FETCH_RETRY_LIMIT ==> {
                &&& r == Result::<(), L2SyncError>::Err(L2SyncError::FetchRetryLimit)
                &&& final(self).retries == old(self).retries
            },
    {
        if self.retries < FETCH_RETRY_LIMIT {
            self.retries = self.retries + 1;
            Ok(())
        } else {
            Err(L2SyncError::FetchRetryLimit)
        }
    }
}

/// The fetch stage's output is gap-free and ascending: the `i`-th emitted
/// unit is exactly height `start + i`.
pub proof fn lemma_fetch_gap_free(f: FetchStage)
    requires
        f.wf(),
    ensures
        f.emitted@.len() == f.next_height - f.start@,
        forall|i: int| 0 <= i < f.emitted@.len() ==> f.emitted@[i] == f.start@ + i,
{
}

} // verus!
