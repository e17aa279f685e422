//! Consecutive height ranges, the vocabulary of the pipeline's ordering
//! contracts: every stage's output is some `height_range(lo, hi)`.

use vstd::prelude::*;

verus! {

/// The heights `lo, lo + 1, ..., hi - 1`, in ascending order.
pub open spec fn height_range(lo: u64, hi: u64) -> Seq<u64>
    recommends
        lo <= hi,
{
    Seq::new((hi - lo) as nat, |i: int| (lo + i) as u64)
}

/// An empty range holds nothing.
pub proof fn lemma_height_range_empty(lo: u64)
    ensures
        height_range(lo, lo) == Seq::<u64>::empty(),
{
    assert(height_range(lo, lo) =~= Seq::<u64>::empty());
}

/// Extending a range by one height on the right appends that height.
pub proof fn lemma_height_range_push(lo: u64, hi: u64)
    requires
        lo <= hi < u64::MAX,
    ensures
        height_range(lo, (hi + 1) as u64) == height_range(lo, hi).push(hi),
{
    assert(height_range(lo, (hi + 1) as u64) =~= height_range(lo, hi).push(hi));
}

/// Two adjacent ranges concatenate to the enclosing range.
pub proof fn lemma_height_range_concat(lo: u64, mid: u64, hi: u64)
    requires
        lo <= mid <= hi,
    ensures
        height_range(lo, mid) + height_range(mid, hi) == height_range(lo, hi),
{
    assert(height_range(lo, mid) + height_range(mid, hi) =~= height_range(lo, hi));
}

/// Dropping the first height of a non-empty range leaves the range that
/// starts one height later.
pub proof fn lemma_height_range_drop_first(lo: u64, hi: u64)
    requires
        lo < hi,
    ensures
        height_range(lo, hi).drop_first() == height_range((lo + 1) as u64, hi),
        height_range(lo, hi)[0] == lo,
{
    assert(height_range(lo, hi).drop_first() =~= height_range((lo + 1) as u64, hi));
}

/// A height range is strictly ascending and gap-free: position `i` holds
/// exactly `lo + i`, so no height is skipped, duplicated or reordered.
pub proof fn lemma_height_range_ascending(lo: u64, hi: u64)
    requires
        lo <= hi,
    ensures
        forall|i: int| 0 <= i < height_range(lo, hi).len()
            ==> height_range(lo, hi)[i] == lo + i,
        forall|i: int, j: int|
            0 <= i < j < height_range(lo, hi).len()
                ==> height_range(lo, hi)[i] < height_range(lo, hi)[j],
{
}

} // verus!
