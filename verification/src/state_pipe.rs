//! The exact cohort pipe: an age-structured population tracker.
//!
//! A pipe holds one population count per discrete age.  Slot 0 is the oldest
//! cohort; it is the population that exits ("loss") on the next tick.  A tick
//! (`step`) drops the oldest cohort and admits the gain at age 0.  The number
//! of slots is the pipe's period: the number of ticks a cohort remains before
//! it counts as loss.

use vstd::prelude::*;

use crate::sums::{
    lemma_sum_nonneg, lemma_sum_pointwise_le, lemma_sum_push, lemma_sum_split, lemma_sum_take_le,
    sum_of,
};

use std::collections::VecDeque;
use std::ops::Index;

verus! {

/// One tick of a pipe: the oldest cohort leaves, the gain enters at age 0.
pub open spec fn stepped(s: Seq<u32>, gain: u32) -> Seq<u32>
    recommends
        s.len() >= 1,
{
    s.drop_first().push(gain)
}

/// A pipe resized to a new period.
///
/// Growing pads empty age-zero slots at the front (no population is touched);
/// shrinking merges the excess oldest cohorts into the remaining oldest slot,
/// making them immediately eligible for loss.
pub open spec fn resized(s: Seq<u32>, period: int) -> Seq<u32>
    recommends
        period >= 1,
        sum_of(s) <= u32::MAX,
{
    if period < s.len() {
        let cut = s.len() - period;
        seq![sum_of(s.take(cut + 1)) as u32] + s.skip(cut + 1)
    } else if period > s.len() {
        Seq::new((period - s.len()) as nat, |i: int| 0u32) + s
    } else {
        s
    }
}

/// A pipe culled by the fraction `removed / total`: every cohort is scaled
/// by the survival ratio `(total - removed) / total`, rounding down.  A zero
/// `total` means the fraction is taken as zero and nothing changes.
pub open spec fn culled(s: Seq<u32>, removed: u32, total: u32) -> Seq<u32>
    recommends
        removed <= total,
{
    if total == 0 {
        s
    } else {
        Seq::new(s.len(), |i: int| ((s[i] * (total - removed)) / (total as int)) as u32)
    }
}

/// Scaling a count by a survival ratio `<= 1` cannot enlarge it.
pub proof fn lemma_scale_le(b: u32, keep: u32, total: u32)
    requires
        keep <= total,
        total > 0,
    ensures
        0 <= (b * keep) / (total as int) <= b,
{
    assert((b * keep) / (total as int) <= b && (b * keep) / (total as int) >= 0)
        by (nonlinear_arith)
        requires
            keep <= total,
            total > 0,
            b >= 0,
    ;
}

/// Culling never raises a cohort count, so it never raises the total.
pub proof fn lemma_culled_le(s: Seq<u32>, removed: u32, total: u32)
    requires
        removed <= total,
    ensures
        culled(s, removed, total).len() == s.len(),
        forall|i: int| 0 <= i < s.len() ==> culled(s, removed, total)[i] <= s[i],
        sum_of(culled(s, removed, total)) <= sum_of(s),
{
    if total > 0 {
        assert forall|i: int| 0 <= i < s.len() implies culled(s, removed, total)[i] <= s[i] by {
            lemma_scale_le(s[i], (total - removed) as u32, total);
        }
    }
    lemma_sum_pointwise_le(s, culled(s, removed, total));
}

/// A tick conserves population exactly: the new total is the old total,
/// less the loss that exited, plus the gain that entered.
pub proof fn lemma_stepped_sum(s: Seq<u32>, gain: u32)
    requires
        s.len() >= 1,
    ensures
        sum_of(stepped(s, gain)) == sum_of(s) - s[0] + gain,
{
    lemma_sum_push(s.drop_first(), gain);
}

/// Resizing conserves population exactly, whichever way the period moves.
pub proof fn lemma_resized_sum(s: Seq<u32>, period: int)
    requires
        period >= 1,
        sum_of(s) <= u32::MAX,
    ensures
        resized(s, period).len() == period,
        sum_of(resized(s, period)) == sum_of(s),
{
    let r = resized(s, period);
    if period < s.len() {
        let cut = s.len() - period;
        lemma_sum_split(s, cut + 1);
        lemma_sum_take_le(s, cut + 1);
        lemma_sum_nonneg(s.take(cut + 1));
        assert(r.drop_first() =~= s.skip(cut + 1));
        assert(r[0] == sum_of(s.take(cut + 1)) as u32);
    } else if period > s.len() {
        lemma_resized_sum_pad(s, period - s.len());
    }
}

/// Padding zero slots at the front leaves the total unchanged.
proof fn lemma_resized_sum_pad(s: Seq<u32>, pad: int)
    requires
        pad >= 0,
    ensures
        sum_of(Seq::new(pad as nat, |i: int| 0u32) + s) == sum_of(s),
    decreases pad,
{
    let z = Seq::new(pad as nat, |i: int| 0u32);
    if pad == 0 {
        assert(z + s =~= s);
    } else {
        lemma_resized_sum_pad(s, pad - 1);
        assert((z + s).drop_first() =~= Seq::new((pad - 1) as nat, |i: int| 0u32) + s);
        assert((z + s)[0] == 0);
    }
}

/// A run of the pipe: `stepped` folded over a sequence of per-tick gains.
pub open spec fn run_pipe(s: Seq<u32>, gains: Seq<u32>) -> Seq<u32>
    recommends
        s.len() >= 1,
    decreases gains.len(),
{
    if gains.len() == 0 {
        s
    } else {
        run_pipe(stepped(s, gains[0]), gains.drop_first())
    }
}

/// The total loss reported over a run: each tick loses the oldest slot of
/// the state the tick starts from.
pub open spec fn run_losses(s: Seq<u32>, gains: Seq<u32>) -> int
    recommends
        s.len() >= 1,
    decreases gains.len(),
{
    if gains.len() == 0 {
        0
    } else {
        s[0] + run_losses(stepped(s, gains[0]), gains.drop_first())
    }
}

/// Conservation law: after any number of ticks, the pipe's population equals
/// the initial population plus every gain admitted minus every loss reported,
/// exactly.
pub proof fn lemma_pipe_conservation(s: Seq<u32>, gains: Seq<u32>)
    requires
        s.len() >= 1,
    ensures
        sum_of(run_pipe(s, gains)) == sum_of(s) + sum_of(gains) - run_losses(s, gains),
    decreases gains.len(),
{
    if gains.len() > 0 {
        lemma_stepped_sum(s, gains[0]);
        lemma_pipe_conservation(stepped(s, gains[0]), gains.drop_first());
    }
}

/// The all-zero cohort sequence of a given length; also a run of zero gains.
pub open spec fn zero_pipe(n: nat) -> Seq<u32> {
    Seq::new(n, |i: int| 0u32)
}

/// The pulse experiment: admit population `p` into an idle pipe of period
/// `k`, then tick `j` more times with no gain.
pub open spec fn pulse_state(k: nat, p: u32, j: nat) -> Seq<u32> {
    run_pipe(stepped(zero_pipe(k), p), zero_pipe(j))
}

/// Stepping a pipe that holds a single cohort with zero gains only moves
/// the cohort towards the oldest slot.
proof fn lemma_hold_run(a: nat, p: u32, b: nat, j: nat)
    requires
        j <= a,
    ensures
        run_pipe(zero_pipe(a) + seq![p] + zero_pipe(b), zero_pipe(j)) == zero_pipe(
            (a - j) as nat,
        ) + seq![p] + zero_pipe((b + j) as nat),
    decreases j,
{
    let s = zero_pipe(a) + seq![p] + zero_pipe(b);
    if j == 0 {
        assert(zero_pipe(0) =~= Seq::<u32>::empty());
        assert(zero_pipe((b + 0) as nat) =~= zero_pipe(b));
    } else {
        assert(zero_pipe(j)[0] == 0);
        assert(stepped(s, 0) =~= zero_pipe((a - 1) as nat) + seq![p] + zero_pipe((b + 1) as nat));
        assert(zero_pipe(j).drop_first() =~= zero_pipe((j - 1) as nat));
        lemma_hold_run((a - 1) as nat, p, (b + 1) as nat, (j - 1) as nat);
    }
}

/// The population of a single travelling cohort is that cohort alone.
proof fn lemma_sum_single_cohort(a: nat, p: u32, b: nat)
    ensures
        sum_of(zero_pipe(a) + seq![p] + zero_pipe(b)) == p,
{
    let s = zero_pipe(a) + seq![p] + zero_pipe(b);
    lemma_sum_split(s, a as int);
    assert(s.take(a as int) =~= zero_pipe(a));
    crate::sums::lemma_sum_zeros(zero_pipe(a));
    let t = s.skip(a as int);
    assert(t =~= seq![p] + zero_pipe(b));
    assert(t[0] == p);
    assert(t.drop_first() =~= zero_pipe(b));
    crate::sums::lemma_sum_zeros(zero_pipe(b));
}

/// Pulse law: admit population `p` into an idle pipe of period `k`.  For the
/// next `k - 1` ticks the reported loss is 0 and the population stays `p`;
/// at tick `k` the loss is exactly `p`, and the tick after that leaves the
/// pipe empty.
pub proof fn lemma_pipe_pulse(k: nat, p: u32, j: nat)
    requires
        1 <= k,
        j <= k - 1,
    ensures
        sum_of(pulse_state(k, p, j)) == p,
        j < k - 1 ==> pulse_state(k, p, j)[0] == 0,
        j == k - 1 ==> pulse_state(k, p, j)[0] == p,
        j == k - 1 ==> sum_of(stepped(pulse_state(k, p, j), 0)) == 0,
{
    assert(stepped(zero_pipe(k), p) =~= zero_pipe((k - 1) as nat) + seq![p] + zero_pipe(0));
    lemma_hold_run((k - 1) as nat, p, 0, j);
    let a = (k - 1 - j) as nat;
    let state = zero_pipe(a) + seq![p] + zero_pipe(j);
    assert(pulse_state(k, p, j) == state);
    lemma_sum_single_cohort(a, p, j);
    if j < k - 1 {
        assert(state[0] == 0);
    }
    if j == k - 1 {
        assert(state[0] == p);
        assert(stepped(state, 0) =~= zero_pipe(j) + seq![0u32] + zero_pipe(0));
        lemma_sum_single_cohort(j, 0u32, 0);
    }
}

/// The exact per-age ledger backend of the cohort pipe.
///
/// Its abstract state is the sequence of per-age counts; every operation's
/// contract is stated over that sequence with the spec functions above.
/// Well-formedness bounds the total so that `pop` cannot overflow.
pub struct GroundTruthStatePipe {
    age_list: VecDeque<u32>,
}

impl View for GroundTruthStatePipe {
    type V = Seq<u32>;

    closed spec fn view(&self) -> Seq<u32> {
        self.age_list@
    }
}

impl Default for GroundTruthStatePipe {
    /// A fresh pipe holds no slots; `set_period` gives it a lifespan.
    fn default() -> (r: Self)
        ensures
            r@ == Seq::<u32>::empty(),
    {
        GroundTruthStatePipe { age_list: VecDeque::new() }
    }
}

impl GroundTruthStatePipe {
    /// The whole pipe never tracks more than `u32::MAX` individuals, so
    /// totals can be reported in a `u32`.
    pub open spec fn wf(&self) -> bool {
        sum_of(self@) <= u32::MAX
    }

    /// The population that will exit on the next `step`: the oldest cohort.
    /// Reading it never mutates, and it never exceeds the total population.
    pub fn loss(&self) -> (r: u32)
        requires
            self@.len() >= 1,
        ensures
            r == self@[0],
            r <= sum_of(self@),
    {
        proof {
            lemma_sum_nonneg(self@.drop_first());
        }
        *self.age_list.index(0)
    }

    /// The current total tracked population.
    pub fn pop(&self) -> (r: u32)
        requires
            self.wf(),
        ensures
            r == sum_of(self@),
    {
        let ghost s = self@;
        let mut total: u32 = 0;
        let n = self.age_list.len();
        for i in 0..n
            invariant
                n == s.len(),
                s == self@,
                self.wf(),
                total == sum_of(s.take(i as int)),
        {
            proof {
                assert(s.take(i + 1).drop_last() =~= s.take(i as int));
                assert(s.take(i + 1) =~= s.take(i as int).push(s[i as int]));
                lemma_sum_push(s.take(i as int), s[i as int]);
                lemma_sum_take_le(s, i + 1);
                lemma_sum_nonneg(s.take(i as int));
            }
            total = total + *self.age_list.index(i);
        }
        proof {
            assert(s.take(n as int) =~= s);
        }
        total
    }

    /// One discrete tick: the oldest cohort exits and `gain` new individuals
    /// are admitted at age 0.  Population is conserved exactly.
    pub fn step(&mut self, gain: u32)
        requires
            old(self).wf(),
            old(self)@.len() >= 1,
            sum_of(old(self)@) - old(self)@[0] + gain <= u32::MAX,
        ensures
            final(self)@ == stepped(old(self)@, gain),
            final(self)@.len() == old(self)@.len(),
            sum_of(final(self)@) == sum_of(old(self)@) - old(self)@[0] + gain,
            final(self).wf(),
    {
        proof {
            lemma_stepped_sum(old(self)@, gain);
        }
        self.age_list.pop_front();
        self.age_list.push_back(gain);
        proof {
            assert(self@ =~= stepped(old(self)@, gain));
        }
    }

    /// Change the lifespan to `period` ticks.  Growing pads empty age-zero
    /// slots at the front; shrinking merges the excess oldest cohorts into
    /// the remaining oldest slot.  The total population is unchanged either
    /// way: a resize never creates or destroys individuals.
    pub fn set_period(&mut self, period: u32)
        requires
            old(self).wf(),
            period >= 1,
        ensures
            final(self)@ == resized(old(self)@, period as int),
            final(self)@.len() == period,
            sum_of(final(self)@) == sum_of(old(self)@),
            final(self).wf(),
    {
        let ghost s = old(self)@;
        proof {
            lemma_resized_sum(s, period as int);
        }
        let p_us = period as usize;
        if p_us < self.age_list.len() {
            let cut = self.age_list.len() - p_us;
            let mut pop_sum: u32 = 0;
            for j in 0..cut
                invariant
                    cut == s.len() - p_us,
                    0 < cut < s.len(),
                    self@ == s.skip(j as int),
                    pop_sum == sum_of(s.take(j as int)),
                    sum_of(s) <= u32::MAX,
            {
                proof {
                    assert(s.take(j + 1) =~= s.take(j as int).push(s[j as int]));
                    lemma_sum_push(s.take(j as int), s[j as int]);
                    lemma_sum_take_le(s, j + 1);
                    lemma_sum_nonneg(s.take(j as int));
                    assert(s.skip(j as int)[0] == s[j as int]);
                }
                let head = self.age_list.pop_front();
                pop_sum = pop_sum + head.unwrap();
                proof {
                    assert(s.skip(j as int).subrange(1, s.skip(j as int).len() as int) =~= s.skip(
                        j + 1,
                    ));
                }
            }
            proof {
                assert(s.skip(cut as int)[0] == s[cut as int]);
                assert(s.take(cut + 1) =~= s.take(cut as int).push(s[cut as int]));
                lemma_sum_push(s.take(cut as int), s[cut as int]);
                lemma_sum_take_le(s, cut + 1);
                lemma_sum_nonneg(s.take(cut as int));
            }
            let old_head = self.age_list.pop_front();
            let merged = pop_sum + old_head.unwrap();
            self.age_list.push_front(merged);
            proof {
                assert(s.skip(cut as int).subrange(1, s.skip(cut as int).len() as int) =~= s.skip(
                    cut + 1,
                ));
                assert(self@ =~= resized(s, period as int));
            }
        } else if p_us > self.age_list.len() {
            let pad = p_us - self.age_list.len();
            for j in 0..pad
                invariant
                    pad == p_us - s.len(),
                    self@ == Seq::new(j as nat, |i: int| 0u32) + s,
            {
                self.age_list.push_front(0);
                proof {
                    assert(seq![0u32] + (Seq::new(j as nat, |i: int| 0u32) + s) =~= Seq::new(
                        (j + 1) as nat,
                        |i: int| 0u32,
                    ) + s);
                }
            }
            proof {
                assert(self@ =~= resized(s, period as int));
            }
        } else {
            proof {
                assert(self@ =~= resized(s, period as int));
            }
        }
    }

    /// Remove the fraction `removed / total` uniformly across all ages,
    /// modelling correlated exogenous mortality.  Every cohort is scaled
    /// independently by the survival ratio, rounding down; a zero `total`
    /// stands for a zero fraction and leaves the pipe unchanged.
    pub fn cull_pop(&mut self, removed: u32, total: u32)
        requires
            old(self).wf(),
            removed <= total,
        ensures
            final(self)@ == culled(old(self)@, removed, total),
            final(self)@.len() == old(self)@.len(),
            sum_of(final(self)@) <= sum_of(old(self)@),
            final(self).wf(),
    {
        let ghost s = old(self)@;
        proof {
            lemma_culled_le(s, removed, total);
        }
        if total == 0 {
            return ;
        }
        let keep = total - removed;
        let n = self.age_list.len();
        for i in 0..n
            invariant
                n == s.len(),
                total > 0,
                keep == total - removed,
                self@.len() == s.len(),
                forall|k: int| 0 <= k < i ==> self@[k] == culled(s, removed, total)[k],
                forall|k: int| i <= k < n ==> self@[k] == s[k],
        {
            let b = *self.age_list.index(i);
            proof {
                lemma_scale_le(b, keep, total);
                assert(b as int * keep as int <= u64::MAX) by (nonlinear_arith)
                    requires
                        b <= u32::MAX && keep <= u32::MAX,
                ;
            }
            let scaled = ((b as u64 * keep as u64) / (total as u64)) as u32;
            let ghost prev = self@;
            let _ = self.age_list.remove(i);
            self.age_list.insert(i, scaled);
            proof {
                assert(self@ =~= prev.update(i as int, scaled));
            }
        }
        proof {
            assert(self@ =~= culled(s, removed, total));
        }
    }
}

} // verus!
