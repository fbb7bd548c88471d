//! Aggregate statistics over histogram buckets: percentile extraction and
//! the log-bucketed distribution of a time histogram.
//!
//! Both work on the bucket entries of a [`crate::hist::TimeHistogram`]
//! (ascending `(value, count)` pairs).  The value at percentile `p` is the
//! value of the first bucket at which the cumulative count reaches
//! `max(1, ceil(p/100 * total))`.  Percentile ranks are carried in
//! hundredths of a percent.

use crate::hist::{
    add_histogram, hist_entries, hist_resizable, histogram_entries, lemma_spec_merge_sum,
    new_histogram, sorted_entries, spec_merge, sum_counts, TimeHistogram,
};
use crate::session::{spec_add_error, wf_error_set};
use crate::workload::WorkloadStats;
use crate::percentile::Percentile;
use vstd::prelude::*;

verus! {

/// The cumulative count that percentile rank `p100` (hundredths of a
/// percent) asks for, out of `total` recordings: the ceiling, at least 1.
pub open spec fn spec_rank(total: int, p100: u64) -> int {
    let r = (total * p100 + 9999) / 10000;
    if r < 1 {
        1
    } else {
        r
    }
}

/// The value of the first bucket at which the cumulative count reaches
/// `rank`; 0 when the entries run out first.
pub open spec fn spec_value_at_rank(e: Seq<(u64, u64)>, rank: int) -> u64
    decreases e.len(),
{
    if e.len() == 0 {
        0u64
    } else if e[0].1 >= rank {
        e[0].0
    } else {
        spec_value_at_rank(e.drop_first(), rank - e[0].1)
    }
}

/// The value at percentile rank `p100` of the recordings in `e`; 0 for an
/// empty histogram.
pub open spec fn spec_percentile(e: Seq<(u64, u64)>, p100: u64) -> u64 {
    if sum_counts(e) == 0 {
        0u64
    } else {
        spec_value_at_rank(e, spec_rank(sum_counts(e), p100))
    }
}

/// The fifteen-point percentile vector of the recordings in `e`.
pub open spec fn spec_percentiles(e: Seq<(u64, u64)>) -> Seq<u64> {
    seq![
        spec_percentile(e, 0),
        spec_percentile(e, 100),
        spec_percentile(e, 200),
        spec_percentile(e, 500),
        spec_percentile(e, 1000),
        spec_percentile(e, 2500),
        spec_percentile(e, 5000),
        spec_percentile(e, 7500),
        spec_percentile(e, 9000),
        spec_percentile(e, 9500),
        spec_percentile(e, 9800),
        spec_percentile(e, 9900),
        spec_percentile(e, 9990),
        spec_percentile(e, 9999),
        spec_percentile(e, 10000),
    ]
}

/// For a reachable rank, the answer is the value of one of the buckets.
proof fn lemma_value_at_rank_is_entry(e: Seq<(u64, u64)>, rank: int)
    requires
        1 <= rank <= sum_counts(e),
    ensures
        exists|i: int| 0 <= i < e.len() && spec_value_at_rank(e, rank) == e[i].0,
    decreases e.len(),
{
    crate::hist::lemma_sum_counts_bounds(e);
    if e.len() == 0 {
        assert(sum_counts(e) == 0);
    } else if e[0].1 >= rank {
        assert(spec_value_at_rank(e, rank) == e[0].0);
    } else {
        assert(sum_counts(e) == e[0].1 + sum_counts(e.drop_first()));
        lemma_value_at_rank_is_entry(e.drop_first(), rank - e[0].1);
        let i = choose|i: int|
            0 <= i < e.drop_first().len() && spec_value_at_rank(e.drop_first(), rank - e[0].1)
                == e.drop_first()[i].0;
        assert(e.drop_first()[i] == e[i + 1]);
    }
}

/// A deeper rank never yields a smaller value: the walk only moves forward
/// through ascending buckets.
proof fn lemma_value_at_rank_monotone(e: Seq<(u64, u64)>, r1: int, r2: int)
    requires
        sorted_entries(e),
        1 <= r1 <= r2 <= sum_counts(e),
    ensures
        spec_value_at_rank(e, r1) <= spec_value_at_rank(e, r2),
    decreases e.len(),
{
    crate::hist::lemma_sum_counts_bounds(e);
    if e.len() == 0 {
    } else if e[0].1 >= r2 {
    } else if e[0].1 >= r1 {
        // r1 stops at the head, r2 walks into the (strictly larger) tail
        assert(sum_counts(e) == e[0].1 + sum_counts(e.drop_first()));
        lemma_value_at_rank_is_entry(e.drop_first(), r2 - e[0].1);
        let i = choose|i: int|
            0 <= i < e.drop_first().len() && spec_value_at_rank(e.drop_first(), r2 - e[0].1)
                == e.drop_first()[i].0;
        assert(e.drop_first()[i] == e[i + 1]);
        assert(e[0].0 < e[i + 1].0);
    } else {
        assert(sum_counts(e) == e[0].1 + sum_counts(e.drop_first()));
        assert(forall|i: int, j: int|
            0 <= i < j < e.drop_first().len() ==> e.drop_first()[i].0 < e.drop_first()[j].0);
        lemma_value_at_rank_monotone(e.drop_first(), r1 - e[0].1, r2 - e[0].1);
    }
}

/// A higher percentile asks for a deeper rank.
proof fn lemma_rank_monotone(total: int, p1: u64, p2: u64)
    requires
        total >= 0,
        p1 <= p2,
    ensures
        spec_rank(total, p1) <= spec_rank(total, p2),
{
    assert(total * p1 <= total * p2) by (nonlinear_arith)
        requires
            total >= 0,
            p1 <= p2,
    ;
    assert((total * p1 + 9999) / 10000 <= (total * p2 + 9999) / 10000);
}

/// The rank never exceeds the total count (for percentiles up to 100%).
proof fn lemma_rank_bounds(total: int, p100: u64)
    requires
        total >= 1,
        p100 <= 10000,
    ensures
        1 <= spec_rank(total, p100) <= total,
{
    assert(total * p100 <= total * 10000) by (nonlinear_arith)
        requires
            total >= 0,
            p100 <= 10000,
    ;
    assert((total * 10000 + 9999) / 10000 == total);
}

/// Percentile values are monotonically non-decreasing in the percentile
/// rank.
pub proof fn lemma_percentile_monotone(e: Seq<(u64, u64)>, p1: u64, p2: u64)
    requires
        sorted_entries(e),
        p1 <= p2 <= 10000,
    ensures
        spec_percentile(e, p1) <= spec_percentile(e, p2),
{
    crate::hist::lemma_sum_counts_bounds(e);
    let total = sum_counts(e);
    if total > 0 {
        lemma_rank_monotone(total, p1, p2);
        lemma_rank_bounds(total, p1);
        lemma_rank_bounds(total, p2);
        lemma_value_at_rank_monotone(e, spec_rank(total, p1), spec_rank(total, p2));
    }
}

/// The fifteen-point percentile vector is monotonically non-decreasing.
pub proof fn lemma_percentiles_sorted(e: Seq<(u64, u64)>)
    requires
        sorted_entries(e),
    ensures
        forall|i: int, j: int|
            0 <= i <= j < spec_percentiles(e).len() ==> #[trigger] spec_percentiles(e)[i]
                <= #[trigger] spec_percentiles(e)[j],
{
    lemma_percentile_monotone(e, 0, 100);
    lemma_percentile_monotone(e, 100, 200);
    lemma_percentile_monotone(e, 200, 500);
    lemma_percentile_monotone(e, 500, 1000);
    lemma_percentile_monotone(e, 1000, 2500);
    lemma_percentile_monotone(e, 2500, 5000);
    lemma_percentile_monotone(e, 5000, 7500);
    lemma_percentile_monotone(e, 7500, 9000);
    lemma_percentile_monotone(e, 9000, 9500);
    lemma_percentile_monotone(e, 9500, 9800);
    lemma_percentile_monotone(e, 9800, 9900);
    lemma_percentile_monotone(e, 9900, 9990);
    lemma_percentile_monotone(e, 9990, 9999);
    lemma_percentile_monotone(e, 9999, 10000);
    assert forall|i: int, j: int|
        0 <= i <= j < spec_percentiles(e).len() implies #[trigger] spec_percentiles(e)[i]
        <= #[trigger] spec_percentiles(e)[j] by {
        assert forall|k: int| 0 <= k < 14 implies #[trigger] spec_percentiles(e)[k]
            <= spec_percentiles(e)[k + 1] by {}
    }
}

/// For a histogram with a single bucket, every percentile equals that
/// bucket's value.
pub proof fn lemma_single_bucket_percentile(v: u64, c: u64, p100: u64)
    requires
        c > 0,
        p100 <= 10000,
    ensures
        spec_percentile(seq![(v, c)], p100) == v,
{
    let e = seq![(v, c)];
    assert(sum_counts(e) == c + sum_counts(e.drop_first()));
    assert(sum_counts(e.drop_first()) == 0);
    lemma_rank_bounds(c as int, p100);
}

/// The value at percentile rank `p100` (hundredths of a percent) of the
/// recordings in `entries`; 0 for an empty histogram.
pub fn value_at_percentile(entries: &Vec<(u64, u64)>, p100: u64) -> (r: u64)
    requires
        sorted_entries(entries@),
        sum_counts(entries@) <= u64::MAX,
        p100 <= 10000,
    ensures
        r == spec_percentile(entries@, p100),
{
    proof {
        crate::hist::lemma_sum_counts_bounds(entries@);
        assert(entries@.skip(0) =~= entries@);
    }
    let n = entries.len();
    let mut total: u64 = 0;
    let mut i: usize = 0;
    while i < n
        invariant
            n == entries@.len(),
            i <= n,
            sum_counts(entries@) <= u64::MAX,
            total + sum_counts(entries@.skip(i as int)) == sum_counts(entries@),
            sum_counts(entries@.skip(i as int)) >= 0,
        decreases n - i,
    {
        proof {
            assert(entries@.skip(i as int).drop_first() =~= entries@.skip(i as int + 1));
            assert(entries@.skip(i as int)[0] == entries@[i as int]);
            crate::hist::lemma_sum_counts_bounds(entries@.skip(i as int + 1));
        }
        total = total + entries[i].1;
        i = i + 1;
    }
    proof {
        assert(entries@.skip(n as int) =~= Seq::<(u64, u64)>::empty());
    }
    if total == 0 {
        return 0;
    }
    proof {
        assert((total as int) * (p100 as int) <= (u64::MAX as int) * 10000) by (nonlinear_arith)
            requires
                0 <= total <= u64::MAX,
                0 <= p100 <= 10000,
        ;
        assert((total as int) * (p100 as int) <= (total as int) * 10000) by (nonlinear_arith)
            requires
                total >= 0,
                p100 <= 10000,
        ;
        assert(((total as int) * 10000 + 9999) / 10000 == total as int);
    }
    let rank128: u128 = ((total as u128) * (p100 as u128) + 9999) / 10000;
    let rank: u64 = if rank128 < 1 {
        1
    } else {
        rank128 as u64
    };
    proof {
        lemma_rank_bounds(total as int, p100);
        assert(rank as int == spec_rank(total as int, p100));
    }
    proof {
        assert(entries@.skip(0) =~= entries@);
    }
    let mut idx: usize = 0;
    let mut remaining: u64 = rank;
    while idx < n
        invariant
            n == entries@.len(),
            idx <= n,
            1 <= remaining,
            remaining as int <= sum_counts(entries@.skip(idx as int)),
            spec_value_at_rank(entries@.skip(idx as int), remaining as int) == spec_value_at_rank(
                entries@,
                spec_rank(sum_counts(entries@), p100),
            ),
            sum_counts(entries@) > 0,
            total as int == sum_counts(entries@),
        decreases n - idx,
    {
        proof {
            assert(entries@.skip(idx as int).drop_first() =~= entries@.skip(idx as int + 1));
            assert(entries@.skip(idx as int)[0] == entries@[idx as int]);
            crate::hist::lemma_sum_counts_bounds(entries@.skip(idx as int));
        }
        let c = entries[idx].1;
        if c >= remaining {
            return entries[idx].0;
        }
        remaining = remaining - c;
        idx = idx + 1;
    }
    proof {
        assert(entries@.skip(n as int) =~= Seq::<(u64, u64)>::empty());
        assert(false);
    }
    0
}

/// The fifteen-point percentile vector of the recordings in `entries`, from
/// the minimum to the maximum, monotonically non-decreasing.
pub fn percentiles_ns(entries: &Vec<(u64, u64)>) -> (r: Vec<u64>)
    requires
        sorted_entries(entries@),
        sum_counts(entries@) <= u64::MAX,
    ensures
        r@ == spec_percentiles(entries@),
        forall|i: int, j: int| 0 <= i <= j < r@.len() ==> r@[i] <= r@[j],
{
    let mut r: Vec<u64> = Vec::new();
    r.push(value_at_percentile(entries, 0));
    r.push(value_at_percentile(entries, 100));
    r.push(value_at_percentile(entries, 200));
    r.push(value_at_percentile(entries, 500));
    r.push(value_at_percentile(entries, 1000));
    r.push(value_at_percentile(entries, 2500));
    r.push(value_at_percentile(entries, 5000));
    r.push(value_at_percentile(entries, 7500));
    r.push(value_at_percentile(entries, 9000));
    r.push(value_at_percentile(entries, 9500));
    r.push(value_at_percentile(entries, 9800));
    r.push(value_at_percentile(entries, 9900));
    r.push(value_at_percentile(entries, 9990));
    r.push(value_at_percentile(entries, 9999));
    r.push(value_at_percentile(entries, 10000));
    proof {
        assert(r@ =~= spec_percentiles(entries@));
        lemma_percentiles_sorted(entries@);
    }
    r
}

/// The value at one of the fifteen fixed percentile points.
pub fn value_at_point(entries: &Vec<(u64, u64)>, p: Percentile) -> (r: u64)
    requires
        sorted_entries(entries@),
        sum_counts(entries@) <= u64::MAX,
    ensures
        r == spec_percentile(entries@, p.spec_value()),
{
    value_at_percentile(entries, p.value())
}

/// One row of the distribution table: everything recorded at or below
/// `upper_ns`, as a step count and a cumulative count.
#[derive(Clone, Copy, Debug, PartialEq, Eq, Structural)]
pub struct Bucket {
    pub upper_ns: u64,
    pub count: u64,
    pub cumulative_count: u64,
}

/// Upper edge of the first distribution bucket, nanoseconds.
pub const DIST_BASE_NS: u64 = 100000;

/// The upper edge of the bucket after one ending at `e`: the edge grows by
/// a factor of about 2.15443469 (one third of a decade), and by at least
/// one, clamped to the `u64` range.
pub open spec fn spec_next_edge(e: u64) -> u64 {
    let n = (e * 2154434690) / 1000000000;
    if e == u64::MAX {
        u64::MAX
    } else if n <= e {
        (e + 1) as u64
    } else if n > u64::MAX {
        u64::MAX
    } else {
        n as u64
    }
}

/// The upper edge of the bucket after one ending at `e`.
fn next_edge(e: u64) -> (r: u64)
    requires
        e < u64::MAX,
    ensures
        r == spec_next_edge(e),
        e < r,
{
    proof {
        assert((e as int) * 2154434690 <= (u64::MAX as int) * 2154434690) by (nonlinear_arith)
            requires
                0 <= e <= u64::MAX,
        ;
    }
    let n: u128 = (e as u128) * 2154434690 / 1000000000;
    if n <= e as u128 {
        e + 1
    } else if n >= u64::MAX as u128 {
        u64::MAX
    } else {
        n as u64
    }
}

/// The log-bucketed distribution of the recordings in `entries`: bucket
/// edges start at `DIST_BASE_NS` and grow by about a third of a decade; each
/// row counts the recordings since the previous edge and cumulatively up to
/// its own.  The last row accounts for every recording.
pub fn distribution(entries: &Vec<(u64, u64)>) -> (r: Vec<Bucket>)
    requires
        sorted_entries(entries@),
        sum_counts(entries@) <= u64::MAX,
    ensures
        entries@.len() == 0 ==> r@.len() == 0,
        entries@.len() > 0 ==> r@.len() > 0,
        r@.len() > 0 ==> r@.last().cumulative_count == sum_counts(entries@),
        r@.len() > 0 ==> r@[0].count == r@[0].cumulative_count,
        r@.len() > 0 ==> r@[0].upper_ns == DIST_BASE_NS,
        forall|i: int|
            0 <= i < r@.len() - 1 ==> (#[trigger] r@[i + 1]).upper_ns == spec_next_edge(
                r@[i].upper_ns,
            ),
        forall|i: int|
            0 <= i < r@.len() ==> (#[trigger] r@[i]).cumulative_count <= sum_counts(entries@),
        forall|i: int|
            1 <= i < r@.len() ==> (#[trigger] r@[i]).count == r@[i].cumulative_count - r@[i
                - 1].cumulative_count,
        forall|i: int, j: int|
            0 <= i < j < r@.len() ==> r@[i].cumulative_count <= r@[j].cumulative_count && r@[
                i
            ].upper_ns < r@[j].upper_ns,
{
    let mut out: Vec<Bucket> = Vec::new();
    let n = entries.len();
    if n == 0 {
        return out;
    }
    proof {
        crate::hist::lemma_sum_counts_bounds(entries@);
        assert(entries@.skip(0) =~= entries@);
    }
    let mut edge: u64 = DIST_BASE_NS;
    let mut i: usize = 0;
    let mut cum: u64 = 0;
    let mut prev_cum: u64 = 0;
    while i < n
        invariant
            n == entries@.len(),
            i <= n,
            sum_counts(entries@) <= u64::MAX,
            cum + sum_counts(entries@.skip(i as int)) == sum_counts(entries@),
            sum_counts(entries@.skip(i as int)) >= 0,
            prev_cum <= cum,
            out@.len() > 0 ==> out@.last().cumulative_count == prev_cum,
            out@.len() == 0 ==> prev_cum == 0,
            out@.len() > 0 ==> out@[0].count == out@[0].cumulative_count,
            forall|k: int| 0 <= k < out@.len() ==> (#[trigger] out@[k]).cumulative_count <= cum,
            forall|k: int|
                1 <= k < out@.len() ==> (#[trigger] out@[k]).count == out@[k].cumulative_count
                    - out@[k - 1].cumulative_count,
            forall|k: int, l: int|
                0 <= k < l < out@.len() ==> out@[k].cumulative_count <= out@[l].cumulative_count
                    && out@[k].upper_ns < out@[l].upper_ns,
            forall|k: int| 0 <= k < out@.len() ==> (#[trigger] out@[k]).upper_ns < edge,
            out@.len() == 0 ==> edge == DIST_BASE_NS,
            out@.len() > 0 ==> edge == spec_next_edge(out@.last().upper_ns),
            out@.len() > 0 ==> out@[0].upper_ns == DIST_BASE_NS,
            forall|k: int|
                0 <= k < out@.len() - 1 ==> (#[trigger] out@[k + 1]).upper_ns == spec_next_edge(
                    out@[k].upper_ns,
                ),
        decreases n - i, u64::MAX - edge,
    {
        proof {
            assert(entries@.skip(i as int).drop_first() =~= entries@.skip(i as int + 1));
            assert(entries@.skip(i as int)[0] == entries@[i as int]);
            crate::hist::lemma_sum_counts_bounds(entries@.skip(i as int));
            crate::hist::lemma_sum_counts_bounds(entries@.skip(i as int + 1));
        }
        if entries[i].0 <= edge {
            cum = cum + entries[i].1;
            i = i + 1;
        } else {
            out.push(Bucket { upper_ns: edge, count: cum - prev_cum, cumulative_count: cum });
            prev_cum = cum;
            edge = next_edge(edge);
        }
    }
    proof {
        assert(entries@.skip(n as int) =~= Seq::<(u64, u64)>::empty());
    }
    out.push(Bucket { upper_ns: edge, count: cum - prev_cum, cumulative_count: cum });
    out
}

/// Total cycles across a set of per-worker snapshots.
pub open spec fn total_calls(s: Seq<WorkloadStats>) -> int
    decreases s.len(),
{
    if s.len() == 0 {
        0
    } else {
        total_calls(s.drop_last()) + s.last().function_stats.call_count
    }
}

/// Total successful requests across a set of per-worker snapshots.
pub open spec fn total_reqs(s: Seq<WorkloadStats>) -> int
    decreases s.len(),
{
    if s.len() == 0 {
        0
    } else {
        total_reqs(s.drop_last()) + s.last().session_stats.req_count
    }
}

/// Total failed requests across a set of per-worker snapshots.
pub open spec fn total_errs(s: Seq<WorkloadStats>) -> int
    decreases s.len(),
{
    if s.len() == 0 {
        0
    } else {
        total_errs(s.drop_last()) + s.last().session_stats.req_error_count
    }
}

/// Total result rows across a set of per-worker snapshots.
pub open spec fn total_rows(s: Seq<WorkloadStats>) -> int
    decreases s.len(),
{
    if s.len() == 0 {
        0
    } else {
        total_rows(s.drop_last()) + s.last().session_stats.row_count
    }
}

/// Total queue-length sum across a set of per-worker snapshots.
pub open spec fn total_qsum(s: Seq<WorkloadStats>) -> int
    decreases s.len(),
{
    if s.len() == 0 {
        0
    } else {
        total_qsum(s.drop_last()) + s.last().session_stats.queue_len_sum
    }
}

/// Total queue-length observations across a set of per-worker snapshots.
pub open spec fn total_qobs(s: Seq<WorkloadStats>) -> int
    decreases s.len(),
{
    if s.len() == 0 {
        0
    } else {
        total_qobs(s.drop_last()) + s.last().session_stats.queue_len_obs
    }
}

/// Summed window lengths across a set of per-worker snapshots, nanoseconds.
pub open spec fn total_duration(s: Seq<WorkloadStats>) -> int
    decreases s.len(),
{
    if s.len() == 0 {
        0
    } else {
        total_duration(s.drop_last()) + (s.last().end_time_ns - s.last().start_time_ns)
    }
}

/// The response-time buckets of all snapshots merged, in snapshot order.
pub open spec fn merged_resp_entries(s: Seq<WorkloadStats>) -> Seq<(u64, u64)>
    decreases s.len(),
{
    if s.len() == 0 {
        Seq::empty()
    } else {
        spec_merge(
            merged_resp_entries(s.drop_last()),
            hist_entries(s.last().session_stats.resp_times),
        )
    }
}

/// The cycle-time buckets of all snapshots merged, in snapshot order.
pub open spec fn merged_cycle_entries(s: Seq<WorkloadStats>) -> Seq<(u64, u64)>
    decreases s.len(),
{
    if s.len() == 0 {
        Seq::empty()
    } else {
        spec_merge(
            merged_cycle_entries(s.drop_last()),
            hist_entries(s.last().function_stats.call_times),
        )
    }
}

/// An error set extended by a whole list of texts, in order.
pub open spec fn spec_add_errors(acc: Seq<String>, errs: Seq<String>) -> Seq<String>
    decreases errs.len(),
{
    if errs.len() == 0 {
        acc
    } else {
        spec_add_errors(spec_add_error(acc, errs[0]), errs.drop_first())
    }
}

/// The capped union of the error sets of all snapshots, in snapshot order.
pub open spec fn collected_errors(s: Seq<WorkloadStats>) -> Seq<String>
    decreases s.len(),
{
    if s.len() == 0 {
        Seq::empty()
    } else {
        spec_add_errors(collected_errors(s.drop_last()), s.last().session_stats.req_errors@)
    }
}

/// All the per-snapshot totals are sums of machine words, hence
/// non-negative.
pub proof fn lemma_totals_nonneg(s: Seq<WorkloadStats>)
    ensures
        total_calls(s) >= 0,
        total_reqs(s) >= 0,
        total_errs(s) >= 0,
        total_rows(s) >= 0,
        total_qsum(s) >= 0,
        total_qobs(s) >= 0,
    decreases s.len(),
{
    if s.len() > 0 {
        lemma_totals_nonneg(s.drop_last());
    }
}

/// A prefix never exceeds the whole: every total over `s.take(i)` is
/// bounded by the total over `s`.
pub proof fn lemma_totals_prefix(s: Seq<WorkloadStats>, i: int)
    requires
        0 <= i <= s.len(),
    ensures
        total_calls(s.take(i)) <= total_calls(s),
        total_reqs(s.take(i)) + total_errs(s.take(i)) <= total_reqs(s) + total_errs(s),
        total_rows(s.take(i)) <= total_rows(s),
        total_qsum(s.take(i)) <= total_qsum(s),
        total_qobs(s.take(i)) <= total_qobs(s),
    decreases s.len() - i,
{
    if i == s.len() {
        assert(s.take(i) =~= s);
    } else {
        lemma_totals_prefix(s, i + 1);
        assert(s.take(i + 1).drop_last() =~= s.take(i));
        assert(s.take(i + 1).last() == s[i]);
    }
}

/// Each snapshot spans a non-empty window, so the summed window length lies
/// between the number of snapshots and `u64::MAX` each.
pub proof fn lemma_total_duration_bounds(s: Seq<WorkloadStats>)
    requires
        forall|k: int| 0 <= k < s.len() ==> (#[trigger] s[k]).wf(),
    ensures
        s.len() <= total_duration(s) <= s.len() * (u64::MAX as int),
    decreases s.len(),
{
    if s.len() == 0 {
        assert(0 * (u64::MAX as int) == 0) by (nonlinear_arith);
    } else {
        assert(forall|k: int|
            0 <= k < s.drop_last().len() ==> (#[trigger] s.drop_last()[k]).wf());
        lemma_total_duration_bounds(s.drop_last());
        assert(s.last().wf());
        assert((s.len() - 1) * (u64::MAX as int) + (u64::MAX as int) == s.len() * (
        u64::MAX as int)) by (nonlinear_arith);
    }
}

/// In a single-request-per-cycle run, the cycle total is exactly the
/// request total plus the error total.
pub proof fn lemma_total_calls_split(s: Seq<WorkloadStats>)
    requires
        forall|k: int| 0 <= k < s.len() ==> (#[trigger] s[k]).wf(),
    ensures
        total_calls(s) == total_reqs(s) + total_errs(s),
    decreases s.len(),
{
    if s.len() > 0 {
        assert(forall|k: int|
            0 <= k < s.drop_last().len() ==> (#[trigger] s.drop_last()[k]).wf());
        lemma_total_calls_split(s.drop_last());
        assert(s.last().wf());
    }
}

/// The merged response-time buckets hold one recording per completed
/// request, successful or not.
pub proof fn lemma_merged_resp_sum(s: Seq<WorkloadStats>)
    requires
        forall|k: int| 0 <= k < s.len() ==> (#[trigger] s[k]).wf(),
        total_reqs(s) + total_errs(s) <= u64::MAX,
    ensures
        sum_counts(merged_resp_entries(s)) == total_reqs(s) + total_errs(s),
    decreases s.len(),
{
    if s.len() > 0 {
        let d = s.drop_last();
        assert(forall|k: int| 0 <= k < d.len() ==> (#[trigger] d[k]).wf());
        lemma_totals_nonneg(d);
        assert(s.last().wf());
        lemma_merged_resp_sum(d);
        lemma_spec_merge_sum(merged_resp_entries(d), hist_entries(s.last().session_stats.resp_times));
    }
}

/// The merged cycle-time buckets hold one recording per cycle.
pub proof fn lemma_merged_cycle_sum(s: Seq<WorkloadStats>)
    requires
        forall|k: int| 0 <= k < s.len() ==> (#[trigger] s[k]).wf(),
        total_calls(s) <= u64::MAX,
    ensures
        sum_counts(merged_cycle_entries(s)) == total_calls(s),
    decreases s.len(),
{
    if s.len() > 0 {
        let d = s.drop_last();
        assert(forall|k: int| 0 <= k < d.len() ==> (#[trigger] d[k]).wf());
        lemma_totals_nonneg(d);
        assert(s.last().wf());
        lemma_merged_cycle_sum(d);
        lemma_spec_merge_sum(
            merged_cycle_entries(d),
            hist_entries(s.last().function_stats.call_times),
        );
    }
}

/// Extends a bounded error set by every text in `src`, in order.
pub fn add_errors(dst: &mut Vec<String>, src: &Vec<String>)
    requires
        wf_error_set(old(dst)@),
    ensures
        final(dst)@ == spec_add_errors(old(dst)@, src@),
        wf_error_set(final(dst)@),
{
    proof {
        assert(src@.skip(0) =~= src@);
    }
    let n = src.len();
    let mut j: usize = 0;
    while j < n
        invariant
            n == src@.len(),
            j <= n,
            wf_error_set(dst@),
            spec_add_errors(dst@, src@.skip(j as int)) == spec_add_errors(old(dst)@, src@),
        decreases n - j,
    {
        proof {
            assert(src@.skip(j as int).drop_first() =~= src@.skip(j as int + 1));
            assert(src@.skip(j as int)[0] == src@[j as int]);
        }
        crate::session::add_error(dst, src[j].clone());
        j = j + 1;
    }
    proof {
        assert(src@.skip(n as int) =~= Seq::<String>::empty());
    }
}

/// Basic statistics of one sampling window, merged across all workers.
/// Derived floating-point figures (throughputs, mean times in
/// milliseconds) are computed by the consumer from these integer fields.
pub struct Sample {
    /// Window start relative to the run start, nanoseconds.
    pub time_ns: u64,
    /// Mean window length across workers, nanoseconds.
    pub duration_ns: u64,
    pub cycle_count: u64,
    pub request_count: u64,
    pub error_count: u64,
    /// Distinct error texts, capped at `MAX_KEPT_ERRORS`.
    pub errors: Vec<String>,
    pub row_count: u64,
    /// Summed queue-length observations across all workers, feeding the
    /// run-wide totals.
    pub queue_len_sum: u64,
    pub queue_len_obs: u64,
    /// Per-worker `(queue_len_sum, queue_len_obs)` pairs in worker order:
    /// the window's mean queue length is the per-worker means averaged by
    /// worker count, which needs the pairs kept apart.
    pub queue_pairs: Vec<(u64, u64)>,
    /// Fifteen-point cycle-time percentile vector, nanoseconds.
    pub cycle_time_percentiles_ns: Vec<u64>,
    /// Fifteen-point response-time percentile vector, nanoseconds.
    pub resp_time_percentiles_ns: Vec<u64>,
    /// All cycle times of the window.
    pub cycle_times: TimeHistogram,
    /// All response times of the window.
    pub resp_times: TimeHistogram,
}

impl Sample {
    pub open spec fn wf(&self) -> bool {
        &&& wf_error_set(self.errors@)
        &&& hist_resizable(self.resp_times)
        &&& hist_resizable(self.cycle_times)
        &&& sum_counts(hist_entries(self.resp_times)) == self.request_count + self.error_count
        &&& sum_counts(hist_entries(self.cycle_times)) == self.cycle_count
        &&& self.cycle_count == self.request_count + self.error_count
        &&& self.duration_ns >= 1
        &&& self.resp_time_percentiles_ns@ == spec_percentiles(hist_entries(self.resp_times))
        &&& self.cycle_time_percentiles_ns@ == spec_percentiles(hist_entries(self.cycle_times))
    }

    /// Merges the per-worker snapshots of one sampling window: counts are
    /// summed, histograms added, error sets unioned under the cap, and the
    /// window length averaged over the workers.  The window always has a
    /// positive length.
    pub fn new(base_start_ns: u64, stats: &Vec<WorkloadStats>) -> (r: Sample)
        requires
            stats@.len() > 0,
            forall|k: int| 0 <= k < stats@.len() ==> (#[trigger] stats@[k]).wf(),
            stats@[0].start_time_ns >= base_start_ns,
            total_calls(stats@) <= u64::MAX,
            total_rows(stats@) <= u64::MAX,
            total_qsum(stats@) <= u64::MAX,
            total_qobs(stats@) <= u64::MAX,
        ensures
            r.wf(),
            r.time_ns == stats@[0].start_time_ns - base_start_ns,
            r.duration_ns == total_duration(stats@) / stats@.len() as int,
            r.cycle_count == total_calls(stats@),
            r.request_count == total_reqs(stats@),
            r.error_count == total_errs(stats@),
            r.cycle_count == r.request_count + r.error_count,
            r.row_count == total_rows(stats@),
            r.queue_len_sum == total_qsum(stats@),
            r.queue_len_obs == total_qobs(stats@),
            r.queue_pairs@ == stats@.map_values(
                |s: WorkloadStats| (s.session_stats.queue_len_sum, s.session_stats.queue_len_obs),
            ),
            r.errors@ == collected_errors(stats@),
            hist_entries(r.resp_times) == merged_resp_entries(stats@),
            hist_entries(r.cycle_times) == merged_cycle_entries(stats@),
            r.resp_time_percentiles_ns@ == spec_percentiles(merged_resp_entries(stats@)),
            r.cycle_time_percentiles_ns@ == spec_percentiles(merged_cycle_entries(stats@)),
            r.duration_ns >= 1,
    {
        proof {
            lemma_total_calls_split(stats@);
            lemma_totals_nonneg(stats@);
            assert(stats@.take(0) =~= Seq::<WorkloadStats>::empty());
        }
        let n = stats.len();
        let mut cycle_count: u64 = 0;
        let mut request_count: u64 = 0;
        let mut error_count: u64 = 0;
        let mut row_count: u64 = 0;
        let mut queue_len_sum: u64 = 0;
        let mut queue_len_obs: u64 = 0;
        let mut queue_pairs: Vec<(u64, u64)> = Vec::new();
        let mut errors: Vec<String> = Vec::new();
        let mut resp_times = new_histogram();
        let mut cycle_times = new_histogram();
        let mut dur_sum: u128 = 0;
        let mut i: usize = 0;
        while i < n
            invariant
                n == stats@.len(),
                i <= n,
                forall|k: int| 0 <= k < stats@.len() ==> (#[trigger] stats@[k]).wf(),
                total_calls(stats@) <= u64::MAX,
                total_reqs(stats@) + total_errs(stats@) <= u64::MAX,
                total_rows(stats@) <= u64::MAX,
                total_qsum(stats@) <= u64::MAX,
                total_qobs(stats@) <= u64::MAX,
                cycle_count == total_calls(stats@.take(i as int)),
                request_count == total_reqs(stats@.take(i as int)),
                error_count == total_errs(stats@.take(i as int)),
                row_count == total_rows(stats@.take(i as int)),
                queue_len_sum == total_qsum(stats@.take(i as int)),
                queue_len_obs == total_qobs(stats@.take(i as int)),
                queue_pairs@ == stats@.take(i as int).map_values(
                    |s: WorkloadStats| (
                        s.session_stats.queue_len_sum,
                        s.session_stats.queue_len_obs,
                    ),
                ),
                errors@ == collected_errors(stats@.take(i as int)),
                wf_error_set(errors@),
                hist_entries(resp_times) == merged_resp_entries(stats@.take(i as int)),
                hist_resizable(resp_times),
                hist_entries(cycle_times) == merged_cycle_entries(stats@.take(i as int)),
                hist_resizable(cycle_times),
                dur_sum as int == total_duration(stats@.take(i as int)),
                dur_sum as int <= (i as int) * (u64::MAX as int),
            decreases n - i,
        {
            proof {
                assert(stats@.take(i as int + 1).drop_last() =~= stats@.take(i as int));
                assert(stats@.take(i as int + 1).last() == stats@[i as int]);
                lemma_totals_prefix(stats@, i as int + 1);
                lemma_totals_nonneg(stats@.take(i as int));
                assert(stats@[i as int].wf());
                assert((i as int) * (u64::MAX as int) + (u64::MAX as int) == (i as int + 1) * (
                u64::MAX as int)) by (nonlinear_arith);
                assert((i as int + 1) * (u64::MAX as int) <= (u64::MAX as int) * (
                u64::MAX as int)) by (nonlinear_arith)
                    requires
                        0 <= i as int + 1 <= u64::MAX as int,
                ;
            }
            proof {
                assert(stats@.take(i as int + 1).map_values(
                    |s: WorkloadStats| (
                        s.session_stats.queue_len_sum,
                        s.session_stats.queue_len_obs,
                    ),
                ) =~= stats@.take(i as int).map_values(
                    |s: WorkloadStats| (
                        s.session_stats.queue_len_sum,
                        s.session_stats.queue_len_obs,
                    ),
                ).push(
                    (
                        stats@[i as int].session_stats.queue_len_sum,
                        stats@[i as int].session_stats.queue_len_obs,
                    ),
                ));
            }
            let s = &stats[i];
            queue_pairs.push((s.session_stats.queue_len_sum, s.session_stats.queue_len_obs));
            cycle_count = cycle_count + s.function_stats.call_count;
            request_count = request_count + s.session_stats.req_count;
            error_count = error_count + s.session_stats.req_error_count;
            row_count = row_count + s.session_stats.row_count;
            queue_len_sum = queue_len_sum + s.session_stats.queue_len_sum;
            queue_len_obs = queue_len_obs + s.session_stats.queue_len_obs;
            add_errors(&mut errors, &s.session_stats.req_errors);
            add_histogram(&mut resp_times, &s.session_stats.resp_times);
            add_histogram(&mut cycle_times, &s.function_stats.call_times);
            dur_sum = dur_sum + ((s.end_time_ns - s.start_time_ns) as u128);
            i = i + 1;
        }
        proof {
            assert(stats@.take(n as int) =~= stats@);
            assert(stats@.take(0) =~= Seq::<WorkloadStats>::empty());
            lemma_total_duration_bounds(stats@);
            assert(dur_sum / (n as u128) <= u64::MAX) by (nonlinear_arith)
                requires
                    n >= 1,
                    dur_sum as int <= (n as int) * (u64::MAX as int),
            ;
            assert(dur_sum / (n as u128) >= 1) by (nonlinear_arith)
                requires
                    n >= 1,
                    dur_sum as int >= n as int,
            ;
            assert((dur_sum / (n as u128)) as int == dur_sum as int / n as int);
            lemma_merged_resp_sum(stats@);
            lemma_merged_cycle_sum(stats@);
        }
        let duration_ns: u64 = (dur_sum / (n as u128)) as u64;
        let time_ns = stats[0].start_time_ns - base_start_ns;
        let resp_entries = histogram_entries(&resp_times);
        let resp_time_percentiles_ns = percentiles_ns(&resp_entries);
        let cycle_entries = histogram_entries(&cycle_times);
        let cycle_time_percentiles_ns = percentiles_ns(&cycle_entries);
        Sample {
            time_ns,
            duration_ns,
            cycle_count,
            request_count,
            error_count,
            errors,
            row_count,
            queue_len_sum,
            queue_len_obs,
            queue_pairs,
            cycle_time_percentiles_ns,
            resp_time_percentiles_ns,
            cycle_times,
            resp_times,
        }
    }
}

/// The percentile vector and log-bucketed distribution of one time
/// histogram; the floating-point mean with its error is derived by the
/// consumer from the sample log.
pub struct TimeDistribution {
    /// Fifteen-point percentile vector, nanoseconds.
    pub percentiles_ns: Vec<u64>,
    /// Log-bucketed distribution.
    pub distribution: Vec<Bucket>,
}

/// The final, immutable result of a run.  Wall-clock anchors and
/// floating-point summaries (throughput means, long-run errors, CPU
/// utilisation) are derived by the consumer from these integer fields and
/// the sample log.
pub struct BenchmarkStats {
    /// Run start on the monotonic clock, nanoseconds.
    pub start_ns: u64,
    /// Run end on the monotonic clock, nanoseconds.
    pub end_ns: u64,
    pub elapsed_ns: u64,
    pub cycle_count: u64,
    pub request_count: u64,
    pub error_count: u64,
    pub row_count: u64,
    /// Distinct error texts, capped at `MAX_KEPT_ERRORS`.
    pub errors: Vec<String>,
    pub queue_len_sum: u64,
    pub queue_len_obs: u64,
    /// The configured per-worker concurrency, kept for the concurrency
    /// ratio.
    pub concurrency_limit: u64,
    /// Cycle-time percentiles and distribution.
    pub cycle_time: TimeDistribution,
    /// Response-time percentiles and distribution; absent when no request
    /// succeeded.
    pub resp_time: Option<TimeDistribution>,
    /// Every sample recorded during the run.
    pub log: Vec<Sample>,
}

/// Accumulates sampling-window snapshots into a log of samples and the
/// run-wide totals, and computes the final statistics on `finish`.
pub struct Recorder {
    /// Run start on the monotonic clock, nanoseconds.
    pub start_ns: u64,
    pub cycle_count: u64,
    pub request_count: u64,
    pub error_count: u64,
    pub row_count: u64,
    pub errors: Vec<String>,
    pub cycle_times: TimeHistogram,
    pub resp_times: TimeHistogram,
    pub queue_len_sum: u64,
    pub queue_len_obs: u64,
    pub log: Vec<Sample>,
    pub concurrency_limit: u64,
}

impl Recorder {
    pub open spec fn wf(&self) -> bool {
        &&& wf_error_set(self.errors@)
        &&& hist_resizable(self.resp_times)
        &&& hist_resizable(self.cycle_times)
        &&& sum_counts(hist_entries(self.resp_times)) == self.request_count + self.error_count
        &&& sum_counts(hist_entries(self.cycle_times)) == self.cycle_count
        &&& self.cycle_count == self.request_count + self.error_count
        &&& forall|k: int| 0 <= k < self.log@.len() ==> (#[trigger] self.log@[k]).wf()
    }

    /// Begins recording a run that starts now (`start_ns` on the monotonic
    /// clock) with the given per-worker concurrency limit.
    pub fn start(concurrency_limit: u64, start_ns: u64) -> (r: Recorder)
        ensures
            r.wf(),
            r.start_ns == start_ns,
            r.concurrency_limit == concurrency_limit,
            r.cycle_count == 0,
            r.request_count == 0,
            r.error_count == 0,
            r.row_count == 0,
            r.errors@.len() == 0,
            r.queue_len_sum == 0,
            r.queue_len_obs == 0,
            r.log@.len() == 0,
            hist_entries(r.resp_times) == Seq::<(u64, u64)>::empty(),
            hist_entries(r.cycle_times) == Seq::<(u64, u64)>::empty(),
    {
        Recorder {
            start_ns,
            cycle_count: 0,
            request_count: 0,
            error_count: 0,
            row_count: 0,
            errors: Vec::new(),
            cycle_times: new_histogram(),
            resp_times: new_histogram(),
            queue_len_sum: 0,
            queue_len_obs: 0,
            log: Vec::new(),
            concurrency_limit,
        }
    }

    /// Merges one round of per-worker snapshots into a sample, appends it to
    /// the log, and folds it into the run-wide totals.
    pub fn record(&mut self, stats: &Vec<WorkloadStats>)
        requires
            old(self).wf(),
            stats@.len() > 0,
            forall|k: int| 0 <= k < stats@.len() ==> (#[trigger] stats@[k]).wf(),
            stats@[0].start_time_ns >= old(self).start_ns,
            old(self).cycle_count + total_calls(stats@) <= u64::MAX,
            old(self).row_count + total_rows(stats@) <= u64::MAX,
            old(self).queue_len_sum + total_qsum(stats@) <= u64::MAX,
            old(self).queue_len_obs + total_qobs(stats@) <= u64::MAX,
        ensures
            final(self).wf(),
            final(self).start_ns == old(self).start_ns,
            final(self).concurrency_limit == old(self).concurrency_limit,
            final(self).cycle_count == old(self).cycle_count + total_calls(stats@),
            final(self).request_count == old(self).request_count + total_reqs(stats@),
            final(self).error_count == old(self).error_count + total_errs(stats@),
            final(self).row_count == old(self).row_count + total_rows(stats@),
            final(self).queue_len_sum == old(self).queue_len_sum + total_qsum(stats@),
            final(self).queue_len_obs == old(self).queue_len_obs + total_qobs(stats@),
            final(self).errors@ == spec_add_errors(old(self).errors@, collected_errors(stats@)),
            hist_entries(final(self).resp_times) == spec_merge(
                hist_entries(old(self).resp_times),
                merged_resp_entries(stats@),
            ),
            hist_entries(final(self).cycle_times) == spec_merge(
                hist_entries(old(self).cycle_times),
                merged_cycle_entries(stats@),
            ),
            final(self).log@.len() == old(self).log@.len() + 1,
            forall|k: int|
                0 <= k < old(self).log@.len() ==> final(self).log@[k] == old(self).log@[k],
            final(self).log@.last().wf(),
            final(self).log@.last().time_ns == stats@[0].start_time_ns - old(self).start_ns,
            final(self).log@.last().duration_ns == total_duration(stats@) / stats@.len() as int,
            final(self).log@.last().cycle_count == total_calls(stats@),
            final(self).log@.last().request_count == total_reqs(stats@),
            final(self).log@.last().error_count == total_errs(stats@),
            final(self).log@.last().row_count == total_rows(stats@),
    {
        proof {
            lemma_total_calls_split(stats@);
            lemma_totals_nonneg(stats@);
            lemma_merged_resp_sum(stats@);
            lemma_merged_cycle_sum(stats@);
            lemma_spec_merge_sum(hist_entries(self.resp_times), merged_resp_entries(stats@));
            lemma_spec_merge_sum(hist_entries(self.cycle_times), merged_cycle_entries(stats@));
        }
        let sample = Sample::new(self.start_ns, stats);
        self.cycle_count = self.cycle_count + sample.cycle_count;
        self.request_count = self.request_count + sample.request_count;
        self.error_count = self.error_count + sample.error_count;
        self.row_count = self.row_count + sample.row_count;
        self.queue_len_sum = self.queue_len_sum + sample.queue_len_sum;
        self.queue_len_obs = self.queue_len_obs + sample.queue_len_obs;
        add_errors(&mut self.errors, &sample.errors);
        add_histogram(&mut self.resp_times, &sample.resp_times);
        add_histogram(&mut self.cycle_times, &sample.cycle_times);
        self.log.push(sample);
    }

    /// Stops the recording at `end_ns` and computes the final statistics.
    /// The cycle count equals requests plus errors, and each distribution's
    /// last bucket accounts for every recording of its histogram.
    pub fn finish(self, end_ns: u64) -> (r: BenchmarkStats)
        requires
            self.wf(),
            end_ns >= self.start_ns,
        ensures
            r.start_ns == self.start_ns,
            r.end_ns == end_ns,
            r.elapsed_ns == end_ns - self.start_ns,
            r.cycle_count == self.cycle_count,
            r.request_count == self.request_count,
            r.error_count == self.error_count,
            r.cycle_count == r.request_count + r.error_count,
            r.row_count == self.row_count,
            r.errors == self.errors,
            r.queue_len_sum == self.queue_len_sum,
            r.queue_len_obs == self.queue_len_obs,
            r.concurrency_limit == self.concurrency_limit,
            r.log == self.log,
            r.cycle_time.percentiles_ns@ == spec_percentiles(hist_entries(self.cycle_times)),
            forall|i: int, j: int|
                0 <= i <= j < r.cycle_time.percentiles_ns@.len()
                    ==> r.cycle_time.percentiles_ns@[i] <= r.cycle_time.percentiles_ns@[j],
            r.resp_time is Some <==> r.request_count > 0,
            r.resp_time matches Some(t) ==> t.percentiles_ns@ == spec_percentiles(
                hist_entries(self.resp_times),
            ),
            r.cycle_count > 0 ==> r.cycle_time.distribution@.len() > 0
                && r.cycle_time.distribution@.last().cumulative_count == r.cycle_count,
            r.resp_time matches Some(t) ==> (r.request_count + r.error_count > 0
                ==> t.distribution@.len() > 0 && t.distribution@.last().cumulative_count
                == r.request_count + r.error_count),
    {
        let cycle_entries = histogram_entries(&self.cycle_times);
        let cycle_time = TimeDistribution {
            percentiles_ns: percentiles_ns(&cycle_entries),
            distribution: distribution(&cycle_entries),
        };
        let resp_entries = histogram_entries(&self.resp_times);
        let resp_time = if self.request_count > 0 {
            Some(
                TimeDistribution {
                    percentiles_ns: percentiles_ns(&resp_entries),
                    distribution: distribution(&resp_entries),
                },
            )
        } else {
            None
        };
        proof {
            if self.cycle_count > 0 {
                assert(hist_entries(self.cycle_times).len() > 0);
            }
            if self.request_count + self.error_count > 0 {
                assert(hist_entries(self.resp_times).len() > 0);
            }
        }
        BenchmarkStats {
            start_ns: self.start_ns,
            end_ns,
            elapsed_ns: end_ns - self.start_ns,
            cycle_count: self.cycle_count,
            request_count: self.request_count,
            error_count: self.error_count,
            row_count: self.row_count,
            errors: self.errors,
            queue_len_sum: self.queue_len_sum,
            queue_len_obs: self.queue_len_obs,
            concurrency_limit: self.concurrency_limit,
            cycle_time,
            resp_time,
            log: self.log,
        }
    }
}

} // verus!
