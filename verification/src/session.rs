//! Per-worker request statistics.
//!
//! A worker owns one `SessionStats` and drives it on every request: once when
//! the request enters the queue and once when the response (or error) comes
//! back.  The histogram always holds exactly one recording per completed
//! request, successful or not; that link is the `wf` invariant and is what
//! later lets the recorder equate histogram totals with request counts.

use crate::hist::{
    clamp_ns, clear_histogram, equiv3, hist_entries, hist_resizable, lemma_spec_record_sum,
    new_histogram, positive_counts, record_nanos, spec_record, sum_counts, TimeHistogram,
};
use vstd::prelude::*;

verus! {

/// At most this many distinct error texts are kept per run.
pub const MAX_KEPT_ERRORS: usize = 10;

/// True when `errs` holds pairwise distinct texts, at most `MAX_KEPT_ERRORS`
/// of them.
pub open spec fn wf_error_set(errs: Seq<String>) -> bool {
    &&& errs.len() <= MAX_KEPT_ERRORS
    &&& forall|i: int, j: int| 0 <= i < j < errs.len() ==> errs[i]@ != errs[j]@
}

/// The error set after classifying one more error text: unchanged when the
/// text is already kept or the cap is reached, otherwise extended by it.
pub open spec fn spec_add_error(errs: Seq<String>, msg: String) -> Seq<String> {
    if (exists|i: int| 0 <= i < errs.len() && errs[i]@ == msg@) || errs.len() >= MAX_KEPT_ERRORS {
        errs
    } else {
        errs.push(msg)
    }
}

/// Adds one error text to a bounded set of distinct texts.
pub fn add_error(errs: &mut Vec<String>, msg: String)
    requires
        wf_error_set(old(errs)@),
    ensures
        final(errs)@ == spec_add_error(old(errs)@, msg),
        wf_error_set(final(errs)@),
{
    let n = errs.len();
    let mut i: usize = 0;
    let mut found = false;
    while i < n
        invariant
            n == errs@.len(),
            errs@ == old(errs)@,
            i <= n,
            found == exists|k: int| 0 <= k < i && errs@[k]@ == msg@,
        decreases n - i,
    {
        if errs[i].eq(&msg) {
            found = true;
        }
        i = i + 1;
    }
    if !found && errs.len() < MAX_KEPT_ERRORS {
        errs.push(msg);
    }
}

/// Live request counters of one worker.
pub struct SessionStats {
    /// Completed successful requests.
    pub req_count: u64,
    /// Successful requests (one per successful cycle here).
    pub req_succ_count: u64,
    /// Distinct error texts seen, capped at `MAX_KEPT_ERRORS`.
    pub req_errors: Vec<String>,
    /// Completed failed requests.
    pub req_error_count: u64,
    /// Result rows returned by the endpoint.
    pub row_count: u64,
    /// Requests currently in flight.
    pub queue_length: u64,
    /// Sum of the queue length sampled at every request start; together with
    /// `queue_len_obs` this gives the mean queue length.
    pub queue_len_sum: u64,
    /// Number of request starts observed.
    pub queue_len_obs: u64,
    /// Response times of all completed requests, nanoseconds.
    pub resp_times: TimeHistogram,
}

impl SessionStats {
    pub open spec fn wf(&self) -> bool {
        &&& wf_error_set(self.req_errors@)
        &&& hist_resizable(self.resp_times)
        &&& positive_counts(hist_entries(self.resp_times))
        &&& sum_counts(hist_entries(self.resp_times)) == self.req_count + self.req_error_count
    }

    /// Fresh statistics: all counters zero, the histogram empty.
    pub fn new() -> (r: SessionStats)
        ensures
            r.wf(),
            r.req_count == 0,
            r.req_succ_count == 0,
            r.req_errors@.len() == 0,
            r.req_error_count == 0,
            r.row_count == 0,
            r.queue_length == 0,
            r.queue_len_sum == 0,
            r.queue_len_obs == 0,
            hist_entries(r.resp_times) == Seq::<(u64, u64)>::empty(),
    {
        SessionStats {
            req_count: 0,
            req_succ_count: 0,
            req_errors: Vec::new(),
            req_error_count: 0,
            row_count: 0,
            queue_length: 0,
            queue_len_sum: 0,
            queue_len_obs: 0,
            resp_times: new_histogram(),
        }
    }

    /// Notes that one more request entered the queue: the current queue
    /// length goes into the running mean, then grows by one.
    pub fn start_request(&mut self)
        requires
            old(self).wf(),
            old(self).queue_length < u64::MAX,
            old(self).queue_len_sum + old(self).queue_length <= u64::MAX,
            old(self).queue_len_obs < u64::MAX,
        ensures
            final(self).wf(),
            final(self).queue_length == old(self).queue_length + 1,
            final(self).queue_len_sum == old(self).queue_len_sum + old(self).queue_length,
            final(self).queue_len_obs == old(self).queue_len_obs + 1,
            final(self).req_count == old(self).req_count,
            final(self).req_succ_count == old(self).req_succ_count,
            final(self).req_error_count == old(self).req_error_count,
            final(self).req_errors == old(self).req_errors,
            final(self).row_count == old(self).row_count,
            final(self).resp_times == old(self).resp_times,
    {
        self.queue_len_sum = self.queue_len_sum + self.queue_length;
        self.queue_len_obs = self.queue_len_obs + 1;
        self.queue_length = self.queue_length + 1;
    }

    /// Notes that one request completed after `duration_ns`: the queue
    /// shrinks by one, the duration is recorded (clamped to the histogram's
    /// range), and either the success counters grow or the error text is
    /// classified into the bounded error set.
    pub fn complete_request(&mut self, duration_ns: u64, error: Option<String>)
        requires
            old(self).wf(),
            old(self).queue_length > 0,
            old(self).req_count + old(self).req_error_count < u64::MAX,
            old(self).req_succ_count < u64::MAX,
        ensures
            final(self).wf(),
            final(self).queue_length == old(self).queue_length - 1,
            hist_entries(final(self).resp_times) == spec_record(
                hist_entries(old(self).resp_times),
                equiv3(clamp_ns(duration_ns)),
            ),
            final(self).req_count + final(self).req_error_count == old(self).req_count + old(
                self,
            ).req_error_count + 1,
            error is None ==> {
                &&& final(self).req_count == old(self).req_count + 1
                &&& final(self).req_succ_count == old(self).req_succ_count + 1
                &&& final(self).req_error_count == old(self).req_error_count
                &&& final(self).req_errors == old(self).req_errors
            },
            error matches Some(msg) ==> {
                &&& final(self).req_count == old(self).req_count
                &&& final(self).req_succ_count == old(self).req_succ_count
                &&& final(self).req_error_count == old(self).req_error_count + 1
                &&& final(self).req_errors@ == spec_add_error(old(self).req_errors@, msg)
            },
            final(self).row_count == old(self).row_count,
            final(self).queue_len_sum == old(self).queue_len_sum,
            final(self).queue_len_obs == old(self).queue_len_obs,
    {
        self.queue_length = self.queue_length - 1;
        proof {
            lemma_spec_record_sum(
                hist_entries(self.resp_times),
                equiv3(clamp_ns(duration_ns)),
            );
        }
        record_nanos(&mut self.resp_times, duration_ns);
        match error {
            None => {
                self.req_count = self.req_count + 1;
                self.req_succ_count = self.req_succ_count + 1;
            },
            Some(msg) => {
                self.req_error_count = self.req_error_count + 1;
                add_error(&mut self.req_errors, msg);
            },
        }
    }

    /// Resets all accumulators for a new sampling window.  The current queue
    /// length is kept: in-flight requests will still complete and must still
    /// shrink it.
    pub fn reset(&mut self)
        requires
            old(self).wf(),
        ensures
            final(self).wf(),
            final(self).req_count == 0,
            final(self).req_succ_count == 0,
            final(self).req_errors@.len() == 0,
            final(self).req_error_count == 0,
            final(self).row_count == 0,
            final(self).queue_length == old(self).queue_length,
            final(self).queue_len_sum == 0,
            final(self).queue_len_obs == 0,
            hist_entries(final(self).resp_times) == Seq::<(u64, u64)>::empty(),
    {
        self.req_count = 0;
        self.req_succ_count = 0;
        self.req_errors = Vec::new();
        self.req_error_count = 0;
        self.row_count = 0;
        self.queue_len_sum = 0;
        self.queue_len_obs = 0;
        clear_histogram(&mut self.resp_times);
    }
}

} // verus!
