//! Counting and selection over the evaluation harness's per-trial outcomes.
//!
//! A policy is judged by the knockdowns it recovers: the harness produces one
//! caught/missed flag per trial, and the per-arm library pick is the champion
//! with the most recoveries on that arm.

use vstd::prelude::*;

verus! {

/// Number of caught trials in a mask.
pub open spec fn caught_count(mask: Seq<bool>) -> nat {
    mask.filter(|b: bool| b).len()
}

/// `i` holds the largest count, and no later entry ties it (the last maximum,
/// which is what a "max by key" scan keeps).
pub open spec fn is_last_max(counts: Seq<usize>, i: int) -> bool {
    &&& 0 <= i < counts.len()
    &&& forall|j: int| 0 <= j < counts.len() ==> counts[j] <= counts[i]
    &&& forall|j: int| i < j < counts.len() ==> counts[j] < counts[i]
}

/// Index of the entry with the most recoveries; on a tie the last such entry
/// wins. Used to pick the per-arm best library champion.
pub fn best_index(counts: &Vec<usize>) -> (i: usize)
    requires
        counts.len() > 0,
    ensures
        is_last_max(counts@, i as int),
{
    let mut best: usize = 0;
    let mut j: usize = 1;
    while j < counts.len()
        invariant
            1 <= j <= counts.len(),
            best < j,
            forall|k: int| 0 <= k < j ==> counts@[k] <= counts@[best as int],
            forall|k: int| best < k < j ==> counts@[k] < counts@[best as int],
        decreases counts.len() - j,
    {
        if counts[j] >= counts[best] {
            best = j;
        }
        j = j + 1;
    }
    best
}

/// Number of caught trials in a per-trial mask.
pub fn count_caught(mask: &Vec<bool>) -> (n: usize)
    ensures
        n == caught_count(mask@),
        n <= mask.len(),
{
    let mut n: usize = 0;
    let mut i: usize = 0;
    while i < mask.len()
        invariant
            i <= mask.len(),
            n == caught_count(mask@.take(i as int)),
            n <= i,
        decreases mask.len() - i,
    {
        proof {
            mask@.take(i as int).lemma_filter_push(mask@[i as int], |b: bool| b);
            assert(mask@.take(i as int).push(mask@[i as int]) =~= mask@.take(i + 1));
        }
        if mask[i] {
            n = n + 1;
        }
        i = i + 1;
    }
    assert(mask@.take(mask.len() as int) =~= mask@);
    n
}

/// Recovery rate of a mask as `(caught, total)`.
pub fn recovery_rate(mask: &Vec<bool>) -> (r: (usize, usize))
    ensures
        r.0 == caught_count(mask@),
        r.1 == mask.len(),
        r.0 <= r.1,
{
    (count_caught(mask), mask.len())
}

} // verus!
