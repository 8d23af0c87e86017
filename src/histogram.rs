use vstd::prelude::*;

verus! {

/// One bucket of the price histogram: a tick price and the number of bids at it.
#[derive(Clone, Copy, Debug, Default, PartialEq, Eq, Structural)]
pub struct MedianTuple(pub u64, pub u64);

/// Number of bids in the buckets at `i` and above.
pub open spec fn sum_from(h: Seq<MedianTuple>, i: int) -> int
    decreases h.len() - i,
{
    if 0 <= i < h.len() {
        h[i].1 as int + sum_from(h, i + 1)
    } else {
        0
    }
}

/// Number of bids in the whole histogram.
pub open spec fn histogram_total(h: Seq<MedianTuple>) -> int {
    sum_from(h, 0)
}

/// The histogram with `delta` added to the count of bucket `k`.
pub open spec fn add_to_bucket(h: Seq<MedianTuple>, k: int, delta: int) -> Seq<MedianTuple> {
    h.update(k, MedianTuple(h[k].0, (h[k].1 + delta) as u64))
}

/// `m` is the clearing bucket for a supply of `tokens`: the highest bucket at
/// which the count from the top first reaches the supply, or the lowest bucket
/// when the whole histogram falls short of it.
pub open spec fn is_clearing_index(h: Seq<MedianTuple>, tokens: int, m: int) -> bool {
    &&& 0 <= m < h.len()
    &&& forall|j: int| m < j < h.len() ==> #[trigger] sum_from(h, j) < tokens
    &&& (sum_from(h, m) >= tokens || m == 0)
}

pub proof fn lemma_sum_from_nonneg(h: Seq<MedianTuple>, i: int)
    ensures
        sum_from(h, i) >= 0,
    decreases h.len() - i,
{
    if 0 <= i < h.len() {
        lemma_sum_from_nonneg(h, i + 1);
    }
}

/// Counting from lower down never gives fewer bids, and every bucket from `j`
/// up is part of the count from `i`.
pub proof fn lemma_sum_from_monotone(h: Seq<MedianTuple>, i: int, j: int)
    requires
        0 <= i <= j,
    ensures
        sum_from(h, i) >= sum_from(h, j),
        j < h.len() ==> sum_from(h, i) >= h[j].1 + sum_from(h, j + 1),
    decreases j - i,
{
    lemma_sum_from_nonneg(h, j);
    if i < j {
        lemma_sum_from_nonneg(h, i);
        if i < h.len() {
            lemma_sum_from_monotone(h, i + 1, j);
        }
    }
}

/// Changing one bucket changes the counts from that bucket down by the same amount.
pub proof fn lemma_sum_from_add(h: Seq<MedianTuple>, k: int, delta: int, i: int)
    requires
        0 <= k < h.len(),
        0 <= i,
        h[k].1 + delta >= 0,
        h[k].1 + delta <= u64::MAX,
    ensures
        sum_from(add_to_bucket(h, k, delta), i) == sum_from(h, i) + (if i <= k {
            delta
        } else {
            0
        }),
    decreases h.len() - i,
{
    if i < h.len() {
        lemma_sum_from_add(h, k, delta, i + 1);
    }
}

/// The clearing bucket is unique.
pub proof fn lemma_clearing_index_unique(h: Seq<MedianTuple>, tokens: int, m1: int, m2: int)
    requires
        is_clearing_index(h, tokens, m1),
        is_clearing_index(h, tokens, m2),
    ensures
        m1 == m2,
{
    if m1 < m2 {
        assert(sum_from(h, m2) < tokens);
    } else if m2 < m1 {
        assert(sum_from(h, m1) < tokens);
    }
}

} // verus!
