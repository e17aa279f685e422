//! The conversion stage: turns raw gateway blocks into the internal
//! representation, overlapping the CPU-heavy work of up to
//! [`CONVERSION_LOOKAHEAD`] consecutive blocks while delivering results
//! downstream strictly in input order.
//!
//! The application takes the raw block [`ConversionStage::start_conversion`]
//! hands back, runs [`convert_block`] on a worker, and reports the result through
//! [`ConversionStage::complete`] — in any order. [`ConversionStage::try_emit`]
//! releases a unit only when the oldest accepted height has completed, which
//! is what makes emission order equal input order.

use vstd::prelude::*;
use vstd::pervasive::unreached;
use crate::data::{
    BlockHeader, ContractClassData, InternalBlock, L2BlockAndUpdates,
    L2ConvertedBlockAndUpdates, L2SyncError, RawBlock, StateUpdate,
};
use crate::order::{height_range, lemma_height_range_drop_first, lemma_height_range_push};

verus! {

/// How many consecutive blocks may be under conversion at once.
pub const CONVERSION_LOOKAHEAD: usize = 10;

/// Whether a raw block is well formed enough to convert: the gateway's
/// declared transaction count must match the transactions it sent.
pub open spec fn spec_convert_ok(b: RawBlock) -> bool {
    b.transaction_count == b.transactions@.len()
}

/// The internal representation of a convertible raw block.
pub open spec fn spec_convert(b: RawBlock) -> InternalBlock {
    InternalBlock {
        header: BlockHeader {
            parent_block_hash: b.parent_block_hash,
            block_number: b.block_number,
            global_state_root: b.global_state_root,
            transaction_count: b.transaction_count,
        },
        transactions: b.transactions,
    }
}

/// Convert a raw block into the internal representation.
///
/// Conversion is a pure function of the raw block; it touches no shared
/// state. A malformed block is a fatal error, since it cannot be safely
/// applied.
pub fn convert_block(b: RawBlock) -> (r: Result<InternalBlock, L2SyncError>)
    ensures
        spec_convert_ok(b) ==> r == Result::<InternalBlock, L2SyncError>::Ok(spec_convert(b)),
        !spec_convert_ok(b) ==> r == Result::<InternalBlock, L2SyncError>::Err(
            L2SyncError::Conversion,
        ),
{
    if b.transaction_count == b.transactions.len() as u64 {
        Ok(InternalBlock {
            header: BlockHeader {
                parent_block_hash: b.parent_block_hash,
                block_number: b.block_number,
                global_state_root: b.global_state_root,
                transaction_count: b.transaction_count,
            },
            transactions: b.transactions,
        })
    } else {
        Err(L2SyncError::Conversion)
    }
}

/// One accepted height waiting in the stage: its payload, and the converted
/// block once the worker has delivered it.
pub struct PendingConversion {
    pub block_n: u64,
    pub state_update: StateUpdate,
    pub class_update: Vec<ContractClassData>,
    pub converted: Option<InternalBlock>,
}

/// The conversion stage's state.
pub struct ConversionStage {
    /// The next height the stage will accept from the fetch stage.
    pub next_input: u64,
    /// The next height the stage will emit downstream.
    pub next_output: u64,
    /// Accepted heights not yet emitted, oldest first; exactly the heights
    /// `next_output .. next_input`.
    pub pending: Vec<PendingConversion>,
    /// The first height this sync run started from.
    pub start: Ghost<u64>,
    /// The heights emitted so far, in emission order.
    pub emitted: Ghost<Seq<u64>>,
}

impl ConversionStage {
    /// Well-formedness: the pending window holds exactly the consecutive
    /// heights between next output and next input, is bounded by the
    /// lookahead, and everything below next output was emitted in order.
    pub open spec fn wf(self) -> bool {
        &&& self.start@ <= self.next_output <= self.next_input
        &&& self.next_input - self.next_output == self.pending@.len()
        &&& self.pending@.len() <= CONVERSION_LOOKAHEAD
        &&& forall|i: int| 0 <= i < self.pending@.len()
            ==> #[trigger] self.pending@[i].block_n == self.next_output + i
        &&& self.emitted@ == height_range(self.start@, self.next_output)
    }

    /// Whether the oldest accepted height has completed conversion, so the
    /// stage can emit it.
    pub open spec fn ready(self) -> bool {
        self.pending@.len() > 0 && self.pending@[0].converted is Some
    }

    /// A conversion stage expecting `first_block` as its first input.
    pub fn new(first_block: u64) -> (r: ConversionStage)
        ensures
            r.wf(),
            r.next_input == first_block,
            r.next_output == first_block,
            r.start@ == first_block,
            r.emitted@ == Seq::<u64>::empty(),
    {
        let r = ConversionStage {
            next_input: first_block,
            next_output: first_block,
            pending: Vec::new(),
            start: Ghost(first_block),
            emitted: Ghost(Seq::empty()),
        };
        proof {
            assert(r.emitted@ =~= height_range(first_block, first_block));
        }
        r
    }

    /// How many heights are currently inside the lookahead window.
    pub fn window_len(&self) -> (r: usize)
        ensures
            r == self.pending@.len(),
    {
        self.pending.len()
    }

    /// Whether the window slot at `idx` is still waiting for its worker.
    pub fn slot_is_open(&self, idx: usize) -> (r: bool)
        requires
            idx < self.pending@.len(),
        ensures
            r == (self.pending@[idx as int].converted is None),
    {
        self.pending[idx].converted.is_none()
    }

    /// Accept the next unit from the fetch stage and hand its raw block
    /// back for a worker to convert. Units must arrive in height order, and
    /// only while the lookahead window has room (backpressure otherwise).
    pub fn start_conversion(&mut self, u: L2BlockAndUpdates) -> (raw: RawBlock)
        requires
            old(self).wf(),
            u.block_n == old(self).next_input,
            old(self).pending@.len() < CONVERSION_LOOKAHEAD,
            old(self).next_input < u64::MAX,
        ensures
            final(self).wf(),
            raw == u.block,
            final(self).next_input == old(self).next_input + 1,
            final(self).next_output == old(self).next_output,
            final(self).start@ == old(self).start@,
            final(self).emitted@ == old(self).emitted@,
            final(self).pending@ == old(self).pending@.push(PendingConversion {
                block_n: u.block_n,
                state_update: u.state_update,
                class_update: u.class_update,
                converted: None,
            }),
    {
        let L2BlockAndUpdates { block_n, block, state_update, class_update } = u;
        self.pending.push(PendingConversion {
            block_n,
            state_update,
            class_update,
            converted: None,
        });
        self.next_input = self.next_input + 1;
        block
    }

    /// A worker finished converting `block_n`. Completions may arrive in
    /// any order within the window; the stage records the result in the
    /// height's slot and emits nothing yet.
    pub fn complete(&mut self, block_n: u64, block: InternalBlock)
        requires
            old(self).wf(),
            old(self).next_output <= block_n < old(self).next_input,
            old(self).pending@[block_n - old(self).next_output].converted is None,
        ensures
            final(self).wf(),
            final(self).next_input == old(self).next_input,
            final(self).next_output == old(self).next_output,
            final(self).start@ == old(self).start@,
            final(self).emitted@ == old(self).emitted@,
            final(self).pending@ == old(self).pending@.update(
                block_n - old(self).next_output,
                (PendingConversion {
                    converted: Some(block),
                    ..old(self).pending@[block_n - old(self).next_output]
                }),
            ),
    {
        let idx: usize = (block_n - self.next_output) as usize;
        self.pending[idx].converted = Some(block);
        proof {
            assert(final(self).pending@ =~= old(self).pending@.update(
                block_n - old(self).next_output,
                (PendingConversion {
                    converted: Some(block),
                    ..old(self).pending@[block_n - old(self).next_output]
                }),
            ));
        }
    }

    /// Emit the oldest accepted height if its conversion has completed.
    /// Emission happens strictly in input order: the unit emitted is always
    /// for height `next_output`, however completions were interleaved.
    pub fn try_emit(&mut self) -> (r: Option<L2ConvertedBlockAndUpdates>)
        requires
            old(self).wf(),
        ensures
            final(self).wf(),
            final(self).next_input == old(self).next_input,
            final(self).start@ == old(self).start@,
            old(self).ready() ==> {
                &&& r matches Some(u)
                &&& u.block_n == old(self).next_output
                &&& Some(u.block) == old(self).pending@[0].converted
                &&& u.state_update == old(self).pending@[0].state_update
                &&& u.class_update == old(self).pending@[0].class_update
                &&& final(self).next_output == old(self).next_output + 1
                &&& final(self).pending@ == old(self).pending@.drop_first()
                &&& final(self).emitted@ == old(self).emitted@.push(old(self).next_output)
            },
            !old(self).ready() ==> {
                &&& r is None
                &&& *final(self) == *old(self)
            },
    {
        if self.pending.len() > 0 && self.pending[0].converted.is_some() {
            let entry = self.pending.remove(0);
            let block_n = self.next_output;
            proof {
                assert(old(self).next_output < old(self).next_input);
            }
            self.next_output = self.next_output + 1;
            proof {
                self.emitted@ = self.emitted@.push(block_n);
                lemma_height_range_push(self.start@, block_n);
                assert(self.pending@ =~= old(self).pending@.drop_first());
            }
            match entry.converted {
                Some(block) => Some(L2ConvertedBlockAndUpdates {
                    block_n,
                    block,
                    state_update: entry.state_update,
                    class_update: entry.class_update,
                }),
                None => unreached(),
            }
        } else {
            None
        }
    }
}

/// The conversion stage preserves input order on its output: what it has
/// emitted is exactly the consecutive run of heights from the start of the
/// sync up to `next_output`, in ascending order, whatever order the
/// individual conversions completed in.
pub proof fn lemma_conversion_preserves_order(c: ConversionStage)
    requires
        c.wf(),
    ensures
        c.emitted@.len() == c.next_output - c.start@,
        forall|i: int| 0 <= i < c.emitted@.len() ==> c.emitted@[i] == c.start@ + i,
{
}

} // verus!
