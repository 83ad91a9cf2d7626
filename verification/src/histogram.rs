//! Tallies for a histogram of terminal profit and loss.
//!
//! The values are spread over a fixed number of bins of equal width between
//! the smallest and the largest of them. The bin that a value falls into is
//! computed by the caller from the range found here; an index at or beyond
//! the last bin counts for the last bin, so that the largest value has one.

use vstd::prelude::*;
use crate::binary64::Binary64;

verus! {

/// `low` is the first of the smallest values of `values`.
pub open spec fn first_least(values: Seq<Binary64>, low: Binary64) -> bool {
    exists|k: int|
        {
            &&& 0 <= k < values.len()
            &&& #[trigger] values[k] == low
            &&& forall|j: int| 0 <= j < values.len() ==> low.le(#[trigger] values[j])
            &&& forall|j: int| 0 <= j < k ==> !(#[trigger] values[j]).le(low)
        }
}

/// `high` is the first of the largest values of `values`.
pub open spec fn first_greatest(values: Seq<Binary64>, high: Binary64) -> bool {
    exists|k: int|
        {
            &&& 0 <= k < values.len()
            &&& #[trigger] values[k] == high
            &&& forall|j: int| 0 <= j < values.len() ==> (#[trigger] values[j]).le(high)
            &&& forall|j: int| 0 <= j < k ==> !high.le(#[trigger] values[j])
        }
}

/// None of the values is NaN.
pub open spec fn all_numbers(values: Seq<Binary64>) -> bool {
    forall|i: int| 0 <= i < values.len() ==> !(#[trigger] values[i]).nan()
}

/// The smallest and the largest of the values, if there is a value and none
/// of them is NaN.
pub fn value_range(values: &Vec<Binary64>) -> (range: Option<(Binary64, Binary64)>)
    ensures
        range is Some <==> values@.len() > 0 && all_numbers(values@),
        range matches Some(ends) ==> first_least(values@, ends.0) && first_greatest(
            values@,
            ends.1,
        ),
{
    if values.len() == 0 {
        return None;
    }
    let mut low = values[0];
    let mut high = values[0];
    if low.is_nan() {
        return None;
    }
    let ghost mut at_low: int = 0;
    let ghost mut at_high: int = 0;
    let mut i: usize = 1;
    while i < values.len()
        invariant
            1 <= i <= values.len(),
            0 <= at_low < i,
            0 <= at_high < i,
            values@[at_low] == low,
            values@[at_high] == high,
            forall|j: int| 0 <= j < i ==> !(#[trigger] values@[j]).nan(),
            forall|j: int| 0 <= j < i ==> low.le(#[trigger] values@[j]),
            forall|j: int| 0 <= j < at_low ==> !(#[trigger] values@[j]).le(low),
            forall|j: int| 0 <= j < i ==> (#[trigger] values@[j]).le(high),
            forall|j: int| 0 <= j < at_high ==> !high.le(#[trigger] values@[j]),
        decreases values.len() - i,
    {
        let value = values[i];
        if value.is_nan() {
            return None;
        }
        if !low.at_most(value) {
            proof {
                at_low = i as int;
            }
            low = value;
        }
        if !value.at_most(high) {
            proof {
                at_high = i as int;
            }
            high = value;
        }
        i = i + 1;
    }
    Some((low, high))
}

/// The bin that an index counts for.
pub open spec fn bin_of(index: usize, bins: usize) -> int {
    if index < bins - 1 {
        index as int
    } else {
        bins - 1
    }
}

/// How many of the indices count for `bin`.
pub open spec fn count_in_bin(indices: Seq<usize>, bins: usize, bin: int) -> nat
    decreases indices.len(),
{
    if indices.len() == 0 {
        0
    } else {
        count_in_bin(indices.drop_last(), bins, bin) + if bin_of(indices.last(), bins) == bin {
            1nat
        } else {
            0nat
        }
    }
}

/// No bin counts more indices than there are.
pub proof fn lemma_count_bounded(indices: Seq<usize>, bins: usize, bin: int)
    ensures
        count_in_bin(indices, bins, bin) <= indices.len(),
    decreases indices.len(),
{
    if indices.len() > 0 {
        lemma_count_bounded(indices.drop_last(), bins, bin);
    }
}

/// The number of indices that count for each of `bins` bins.
pub fn tally(indices: &Vec<usize>, bins: usize) -> (counts: Vec<usize>)
    requires
        bins > 0,
    ensures
        counts@.len() == bins,
        forall|b: int| 0 <= b < bins ==> #[trigger] counts@[b] == count_in_bin(indices@, bins, b),
{
    let mut counts: Vec<usize> = Vec::new();
    let mut b: usize = 0;
    while b < bins
        invariant
            b <= bins,
            counts@.len() == b,
            forall|k: int| 0 <= k < b ==> #[trigger] counts@[k] == 0,
        decreases bins - b,
    {
        counts.push(0);
        b = b + 1;
    }
    let mut i: usize = 0;
    while i < indices.len()
        invariant
            bins > 0,
            i <= indices.len(),
            counts@.len() == bins,
            forall|k: int|
                0 <= k < bins ==> #[trigger] counts@[k] == count_in_bin(
                    indices@.take(i as int),
                    bins,
                    k,
                ),
        decreases indices.len() - i,
    {
        let index = indices[i];
        let bin: usize = if index < bins - 1 {
            index
        } else {
            bins - 1
        };
        proof {
            let seen = indices@.take(i as int);
            let more = indices@.take(i + 1);
            assert(more.drop_last() =~= seen);
            assert(more.last() == index);
            lemma_count_bounded(seen, bins, bin as int);
        }
        let count = counts[bin];
        counts.set(bin, count + 1);
        i = i + 1;
    }
    proof {
        assert(indices@.take(indices@.len() as int) =~= indices@);
    }
    counts
}

/// Every index counts for exactly one bin: the counts of all bins add up to
/// the number of indices.
pub proof fn lemma_counts_add_up(indices: Seq<usize>, bins: usize)
    requires
        bins > 0,
    ensures
        total_below(indices, bins, bins as int) == indices.len(),
    decreases indices.len(),
{
    if indices.len() == 0 {
        assert(indices =~= Seq::<usize>::empty());
        lemma_total_of_none(bins, bins as int);
    } else {
        lemma_counts_add_up(indices.drop_last(), bins);
        lemma_total_step(indices, bins, bins as int);
    }
}

/// The counts of the bins below `upto`, added up.
pub open spec fn total_below(indices: Seq<usize>, bins: usize, upto: int) -> nat
    decreases upto,
{
    if upto <= 0 {
        0
    } else {
        total_below(indices, bins, upto - 1) + count_in_bin(indices, bins, upto - 1)
    }
}

proof fn lemma_total_of_none(bins: usize, upto: int)
    ensures
        total_below(Seq::<usize>::empty(), bins, upto) == 0,
    decreases upto,
{
    if upto > 0 {
        lemma_total_of_none(bins, upto - 1);
    }
}

proof fn lemma_total_step(indices: Seq<usize>, bins: usize, upto: int)
    requires
        indices.len() > 0,
        0 <= upto,
    ensures
        total_below(indices, bins, upto) == total_below(indices.drop_last(), bins, upto) + if 0
            <= bin_of(indices.last(), bins) < upto {
            1nat
        } else {
            0nat
        },
    decreases upto,
{
    if upto > 0 {
        lemma_total_step(indices, bins, upto - 1);
    }
}

/// The height of the tallest bin; one where there is no bin.
pub fn peak(counts: &Vec<usize>) -> (top: usize)
    ensures
        counts@.len() == 0 ==> top == 1,
        counts@.len() > 0 ==> counts@.contains(top),
        forall|b: int| 0 <= b < counts@.len() ==> #[trigger] counts@[b] <= top,
{
    if counts.len() == 0 {
        return 1;
    }
    let mut top = counts[0];
    let mut b: usize = 1;
    while b < counts.len()
        invariant
            1 <= b <= counts.len(),
            exists|k: int| 0 <= k < b && #[trigger] counts@[k] == top,
            forall|k: int| 0 <= k < b ==> #[trigger] counts@[k] <= top,
        decreases counts.len() - b,
    {
        if counts[b] > top {
            top = counts[b];
        }
        b = b + 1;
    }
    top
}

} // verus!
