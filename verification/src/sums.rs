//! Summation over per-age cohort sequences.
//!
//! A cohort pipe is modelled as a `Seq<u32>` of per-age population counts,
//! index 0 being the oldest cohort.  The total population of a pipe is the
//! sum of its counts; the lemmas here are the arithmetic backbone for the
//! conservation arguments about pipes and the life-cycle machine.

use vstd::prelude::*;

verus! {

/// Total population held in a sequence of per-age cohort counts.
pub open spec fn sum_of(s: Seq<u32>) -> int
    decreases s.len(),
{
    if s.len() == 0 {
        0
    } else {
        s[0] + sum_of(s.drop_first())
    }
}

/// A sum of non-negative counts is non-negative.
pub proof fn lemma_sum_nonneg(s: Seq<u32>)
    ensures
        sum_of(s) >= 0,
    decreases s.len(),
{
    if s.len() > 0 {
        lemma_sum_nonneg(s.drop_first());
    }
}

/// Appending a count adds it to the total.
pub proof fn lemma_sum_push(s: Seq<u32>, x: u32)
    ensures
        sum_of(s.push(x)) == sum_of(s) + x,
    decreases s.len(),
{
    if s.len() == 0 {
        assert(s.push(x)[0] == x);
        assert(s.push(x).drop_first() =~= Seq::<u32>::empty());
        assert(sum_of(Seq::<u32>::empty()) == 0);
    } else {
        assert(s.push(x)[0] == s[0]);
        assert(s.push(x).drop_first() =~= s.drop_first().push(x));
        lemma_sum_push(s.drop_first(), x);
    }
}

/// The total splits at any cut point into the sum of the prefix and the
/// sum of the suffix.
pub proof fn lemma_sum_split(s: Seq<u32>, k: int)
    requires
        0 <= k <= s.len(),
    ensures
        sum_of(s) == sum_of(s.take(k)) + sum_of(s.skip(k)),
    decreases k,
{
    if k == 0 {
        assert(s.take(0) =~= Seq::<u32>::empty());
        assert(s.skip(0) =~= s);
    } else {
        lemma_sum_split(s.drop_first(), k - 1);
        assert(s.take(k).drop_first() =~= s.drop_first().take(k - 1));
        assert(s.skip(k) =~= s.drop_first().skip(k - 1));
    }
}

/// A prefix never holds more population than the whole sequence.
pub proof fn lemma_sum_take_le(s: Seq<u32>, k: int)
    requires
        0 <= k <= s.len(),
    ensures
        sum_of(s.take(k)) <= sum_of(s),
{
    lemma_sum_split(s, k);
    lemma_sum_nonneg(s.skip(k));
}

/// Lowering every count can only lower the total.
pub proof fn lemma_sum_pointwise_le(s: Seq<u32>, t: Seq<u32>)
    requires
        s.len() == t.len(),
        forall|i: int| 0 <= i < s.len() ==> t[i] <= s[i],
    ensures
        sum_of(t) <= sum_of(s),
    decreases s.len(),
{
    if s.len() > 0 {
        lemma_sum_pointwise_le(s.drop_first(), t.drop_first());
    }
}

/// A sequence of zero counts holds no population.
pub proof fn lemma_sum_zeros(s: Seq<u32>)
    requires
        forall|i: int| 0 <= i < s.len() ==> s[i] == 0,
    ensures
        sum_of(s) == 0,
    decreases s.len(),
{
    if s.len() > 0 {
        lemma_sum_zeros(s.drop_first());
    }
}

} // verus!
