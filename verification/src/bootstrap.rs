//! Bootstrap resampling from a recorded histogram.
//!
//! Builds a weighted multinomial over the histogram's bucket values, with
//! each bucket weighted by its count, and draws random values from it.  Used
//! for validation and test harnesses, not by the benchmark loop itself.
//! The randomness comes from the rand crate and is held behind an opaque
//! picker whose only promise is that every drawn index is in range.

use crate::hist::{positive_counts, sum_counts};
use rand::distributions::Distribution;
use rand::distributions::WeightedIndex;
use rand::rngs::ThreadRng;
use vstd::prelude::*;

verus! {

/// Total of a weight list.
pub open spec fn sum_weights(w: Seq<u64>) -> int
    decreases w.len(),
{
    if w.len() == 0 {
        0
    } else {
        w[0] + sum_weights(w.drop_first())
    }
}

/// An opaque weighted index plus its private source of randomness.  All
/// reasoning goes through [`picker_len`] and the two operations below.
#[verifier::external_body]
pub struct WeightedPicker {
    index: WeightedIndex<u64>,
    rng: ThreadRng,
}

/// How many weights the picker was built over.
pub uninterp spec fn picker_len(p: WeightedPicker) -> int;

/// Relies on `rand::distributions::WeightedIndex::new` and
/// `rand::thread_rng`: builds a sampler over the given weights.  The
/// constructor sums the weights as it goes, so the caller keeps the total
/// within `u64`; it then succeeds exactly when there is at least one weight
/// and the total is positive.
#[verifier::external_body]
fn new_picker(weights: &Vec<u64>) -> (r: Option<WeightedPicker>)
    requires
        sum_weights(weights@) <= u64::MAX,
    ensures
        r is Some <==> (weights@.len() > 0 && sum_weights(weights@) > 0),
        r matches Some(p) ==> picker_len(p) == weights@.len(),
{
    match WeightedIndex::new(weights.iter().cloned()) {
        Ok(index) => Some(WeightedPicker { index, rng: rand::thread_rng() }),
        Err(_) => None,
    }
}

/// Relies on `rand::distributions::WeightedIndex::sample`: draws one index,
/// always below the number of weights; which one comes back is random.
#[verifier::external_body]
fn pick(p: &mut WeightedPicker) -> (r: usize)
    ensures
        picker_len(*final(p)) == picker_len(*old(p)),
        r < picker_len(*old(p)),
{
    let i = p.index.sample(&mut p.rng);
    i
}

/// Draws random values distributed like the recordings of a histogram.
pub struct Bootstrap {
    values: Vec<u64>,
    picker: WeightedPicker,
}

impl Bootstrap {
    /// The bucket values the bootstrap draws from.
    pub closed spec fn values_seq(&self) -> Seq<u64> {
        self.values@
    }

    pub closed spec fn wf(&self) -> bool {
        picker_len(self.picker) == self.values@.len() && self.values@.len() > 0
    }

    /// Builds a bootstrap over histogram bucket entries: one candidate value
    /// per bucket, weighted by the bucket's count.
    pub fn new(entries: &Vec<(u64, u64)>) -> (r: Bootstrap)
        requires
            entries@.len() > 0,
            positive_counts(entries@),
            sum_counts(entries@) <= u64::MAX,
        ensures
            r.wf(),
            r.values_seq() == entries@.map_values(|e: (u64, u64)| e.0),
    {
        proof {
            assert(entries@.skip(0) =~= entries@);
        }
        let n = entries.len();
        let mut values: Vec<u64> = Vec::new();
        let mut weights: Vec<u64> = Vec::new();
        let mut i: usize = 0;
        while i < n
            invariant
                n == entries@.len(),
                i <= n,
                positive_counts(entries@),
                sum_counts(entries@) <= u64::MAX,
                values@ == entries@.take(i as int).map_values(|e: (u64, u64)| e.0),
                weights@ == entries@.take(i as int).map_values(|e: (u64, u64)| e.1),
                sum_weights(weights@) + sum_counts(entries@.skip(i as int)) == sum_counts(
                    entries@,
                ),
                sum_weights(weights@) >= 0,
                i > 0 ==> sum_weights(weights@) > 0,
            decreases n - i,
        {
            proof {
                assert(entries@.skip(i as int).drop_first() =~= entries@.skip(i as int + 1));
                assert(entries@.skip(i as int)[0] == entries@[i as int]);
                crate::hist::lemma_sum_counts_bounds(entries@.skip(i as int + 1));
                lemma_sum_weights_push(weights@, entries@[i as int].1);
                assert(entries@.take(i as int + 1).map_values(|e: (u64, u64)| e.0) =~= entries@.take(
                    i as int,
                ).map_values(|e: (u64, u64)| e.0).push(entries@[i as int].0));
                assert(entries@.take(i as int + 1).map_values(|e: (u64, u64)| e.1) =~= entries@.take(
                    i as int,
                ).map_values(|e: (u64, u64)| e.1).push(entries@[i as int].1));
            }
            values.push(entries[i].0);
            weights.push(entries[i].1);
            i = i + 1;
        }
        proof {
            assert(entries@.take(n as int) =~= entries@);
            assert(entries@.skip(n as int) =~= Seq::<(u64, u64)>::empty());
        }
        let picker = match new_picker(&weights) {
            Some(p) => p,
            None => vstd::pervasive::unreached(),
        };
        Bootstrap { values, picker }
    }

    /// Draws one value; it is always one of the histogram's bucket values.
    pub fn sample(&mut self) -> (r: u64)
        requires
            old(self).wf(),
        ensures
            final(self).wf(),
            final(self).values_seq() == old(self).values_seq(),
            old(self).values_seq().contains(r),
    {
        let i = pick(&mut self.picker);
        let r = self.values[i];
        proof {
            assert(self.values@[i as int] == r);
        }
        r
    }
}

/// Appending one weight adds it to the total.
proof fn lemma_sum_weights_push(w: Seq<u64>, x: u64)
    ensures
        sum_weights(w.push(x)) == sum_weights(w) + x,
    decreases w.len(),
{
    assert(w.push(x).len() == w.len() + 1);
    assert(sum_weights(w.push(x)) == w.push(x)[0] + sum_weights(w.push(x).drop_first()));
    if w.len() == 0 {
        assert(w.push(x)[0] == x);
        assert(w.push(x).drop_first() =~= Seq::<u64>::empty());
        assert(sum_weights(w.push(x).drop_first()) == 0);
    } else {
        assert(w.push(x)[0] == w[0]);
        assert(w.push(x).drop_first() =~= w.drop_first().push(x));
        lemma_sum_weights_push(w.drop_first(), x);
        assert(sum_weights(w) == w[0] + sum_weights(w.drop_first()));
    }
}

} // verus!
