//! Data carried through the sync pipeline and the shared state store.

use vstd::prelude::*;
use crate::felt::Felt;

verus! {

/// A raw block as reported by the gateway, before conversion into the
/// node's internal representation.
#[derive(Clone, Debug, PartialEq, Eq)]
pub struct RawBlock {
    pub block_number: u64,
    pub parent_block_hash: Felt,
    pub global_state_root: Felt,
    /// Transaction count the gateway declares for this block.
    pub transaction_count: u64,
    /// Hashes of the block's transactions.
    pub transactions: Vec<Felt>,
}

/// The header of a converted, internal block.
#[derive(Clone, Copy, Debug, PartialEq, Eq, Structural)]
pub struct BlockHeader {
    pub parent_block_hash: Felt,
    pub block_number: u64,
    pub global_state_root: Felt,
    pub transaction_count: u64,
}

/// The node's internal block representation, produced by the conversion stage.
#[derive(Clone, Debug, PartialEq, Eq)]
pub struct InternalBlock {
    pub header: BlockHeader,
    pub transactions: Vec<Felt>,
}

impl InternalBlock {
    pub fn header(&self) -> (r: BlockHeader)
        ensures
            r == self.header,
    {
        self.header
    }
}

/// Key/value writes of one contract's storage introduced by a block.
#[derive(Clone, Debug, PartialEq, Eq)]
pub struct StorageDiff {
    pub contract_address: Felt,
    pub entries: Vec<(Felt, Felt)>,
}

impl StorageDiff {
    /// Whether two storage diffs carry the same contract and the same
    /// entries, whatever their allocations.
    pub open spec fn same_diff(self, other: StorageDiff) -> bool {
        self.contract_address == other.contract_address && self.entries@ == other.entries@
    }
}

/// Whether two storage-diff sequences carry the same data entry for entry.
pub open spec fn same_storage_diffs(a: Seq<StorageDiff>, b: Seq<StorageDiff>) -> bool {
    a.len() == b.len() && forall|i: int| 0 <= i < a.len() ==> #[trigger] a[i].same_diff(b[i])
}

/// Make an owned copy of a list of plain values.
pub fn copy_vec<T: Copy>(v: &Vec<T>) -> (r: Vec<T>)
    ensures
        r@ == v@,
{
    let mut r: Vec<T> = Vec::new();
    let mut i: usize = 0;
    while i < v.len()
        invariant
            i <= v@.len(),
            r@ == v@.subrange(0, i as int),
        decreases v@.len() - i,
    {
        r.push(v[i]);
        i = i + 1;
        proof {
            assert(r@ =~= v@.subrange(0, i as int));
        }
    }
    proof {
        assert(v@.subrange(0, v@.len() as int) =~= v@);
    }
    r
}

/// Make an owned copy of a sequence of storage diffs.
pub fn copy_storage_diffs(v: &Vec<StorageDiff>) -> (r: Vec<StorageDiff>)
    ensures
        same_storage_diffs(r@, v@),
{
    let mut r: Vec<StorageDiff> = Vec::new();
    let mut i: usize = 0;
    while i < v.len()
        invariant
            i <= v@.len(),
            r@.len() == i,
            forall|j: int| 0 <= j < i ==> #[trigger] r@[j].same_diff(v@[j]),
        decreases v@.len() - i,
    {
        let entries = copy_vec(&v[i].entries);
        r.push(StorageDiff { contract_address: v[i].contract_address, entries });
        i = i + 1;
    }
    r
}

/// The storage, class and nonce changes a block introduces relative to the
/// prior state.
#[derive(Clone, Debug, PartialEq, Eq)]
pub struct StateDiff {
    pub storage_diffs: Vec<StorageDiff>,
    pub declared_classes: Vec<Felt>,
    pub nonces: Vec<(Felt, u64)>,
}

/// A sealed block's state update as reported by the gateway.
#[derive(Clone, Debug, PartialEq, Eq)]
pub struct StateUpdate {
    pub block_hash: Felt,
    pub new_root: Felt,
    pub old_root: Felt,
    pub state_diff: StateDiff,
}

/// The provisional (not yet sealed) state update; it has no block hash or
/// new root yet.
#[derive(Clone, Debug, PartialEq, Eq)]
pub struct PendingStateUpdate {
    pub old_root: Felt,
    pub state_diff: StateDiff,
}

/// Compiled class data persisted alongside a block.
#[derive(Clone, Copy, Debug, PartialEq, Eq, Structural)]
pub struct ContractClassData {
    pub class_hash: Felt,
    pub sierra_program_length: u64,
    pub abi_length: u64,
}

/// One height's worth of raw data from the gateway: produced by the fetch
/// stage, consumed by the conversion stage.
#[derive(Clone, Debug, PartialEq, Eq)]
pub struct L2BlockAndUpdates {
    pub block_n: u64,
    pub block: RawBlock,
    pub state_update: StateUpdate,
    pub class_update: Vec<ContractClassData>,
}

/// The same unit with the raw block replaced by the internal representation:
/// produced by the conversion stage, consumed by verify-and-apply.
#[derive(Clone, Debug, PartialEq, Eq)]
pub struct L2ConvertedBlockAndUpdates {
    pub block_n: u64,
    pub block: InternalBlock,
    pub state_update: StateUpdate,
    pub class_update: Vec<ContractClassData>,
}

/// The latest Layer-2 state the node considers verified (or accepted, when
/// verification is disabled).
#[derive(Clone, Copy, Debug, PartialEq, Eq, Structural)]
pub struct L2StateUpdate {
    pub block_number: u64,
    pub global_root: Felt,
    pub block_hash: Felt,
}

/// The current syncing status:
///
/// - `SyncVerifiedState`: the node is syncing blocks accepted on Layer 1
/// - `SyncUnverifiedState`: the node is syncing blocks accepted on Layer 2
/// - `SyncPendingState`: the node is fully synced and now syncing the
///   provisional block
#[derive(Clone, Copy, Debug, PartialEq, Eq, Structural)]
pub enum SyncStatus {
    SyncVerifiedState,
    SyncUnverifiedState,
    SyncPendingState,
}

/// A fatal error of the sync pipeline. Every variant terminates the whole
/// sync process; soft failures (verification mismatch, persistence failure,
/// poller failure) are reported through return values instead.
#[derive(Clone, Copy, Debug, PartialEq, Eq, Structural)]
pub enum L2SyncError {
    /// The gateway provider failed permanently.
    Provider,
    /// The bounded retry budget for one height was exhausted.
    FetchRetryLimit,
    /// A fetched block could not be converted into the internal
    /// representation; a malformed block cannot be safely applied.
    Conversion,
}

} // verus!
