//! The measurement core of one worker.
//!
//! A worker binds one request to a transport and runs it once per cycle.
//! Sending and receiving happen outside this crate; what is verified here is
//! the bookkeeping around each cycle: the queue enter/leave discipline, the
//! two histograms (per-cycle times and response times), and the snapshot /
//! reset protocol that feeds the sampler.  Because every cycle performs
//! exactly one request, a worker's cycle count always equals its completed
//! request count plus its error count.

use crate::hist::{
    clamp_ns, clear_histogram, equiv3, hist_entries, hist_resizable, lemma_spec_record_sum,
    new_histogram, positive_counts, record_nanos, spec_record, sum_counts, TimeHistogram,
};
use crate::session::{spec_add_error, SessionStats};
use vstd::prelude::*;

verus! {

/// Tracks how many cycles a worker ran and how long each took.
pub struct FnStats {
    /// Completed cycles.
    pub call_count: u64,
    /// Per-cycle durations, nanoseconds.
    pub call_times: TimeHistogram,
}

impl FnStats {
    pub open spec fn wf(&self) -> bool {
        &&& hist_resizable(self.call_times)
        &&& positive_counts(hist_entries(self.call_times))
        &&& sum_counts(hist_entries(self.call_times)) == self.call_count
    }

    /// Fresh statistics: no cycles, empty histogram.
    pub fn new() -> (r: FnStats)
        ensures
            r.wf(),
            r.call_count == 0,
            hist_entries(r.call_times) == Seq::<(u64, u64)>::empty(),
    {
        FnStats { call_count: 0, call_times: new_histogram() }
    }

    /// Notes one completed cycle of `duration_ns`.
    pub fn operation_completed(&mut self, duration_ns: u64)
        requires
            old(self).wf(),
            old(self).call_count < u64::MAX,
        ensures
            final(self).wf(),
            final(self).call_count == old(self).call_count + 1,
            hist_entries(final(self).call_times) == spec_record(
                hist_entries(old(self).call_times),
                equiv3(clamp_ns(duration_ns)),
            ),
    {
        proof {
            lemma_spec_record_sum(
                hist_entries(self.call_times),
                equiv3(clamp_ns(duration_ns)),
            );
        }
        self.call_count = self.call_count + 1;
        record_nanos(&mut self.call_times, duration_ns);
    }
}

/// The part of a worker's state that is reset on every sampling window.
pub struct WorkloadState {
    /// Start of the current measurement window, nanoseconds.
    pub start_time_ns: u64,
    /// Cycle statistics of the current window.
    pub fn_stats: FnStats,
}

/// One immutable snapshot of a worker's window: its bounds and both
/// statistics blocks.
pub struct WorkloadStats {
    pub start_time_ns: u64,
    pub end_time_ns: u64,
    pub function_stats: FnStats,
    pub session_stats: SessionStats,
}

impl WorkloadStats {
    /// A snapshot from a single-request-per-cycle worker: both statistics
    /// blocks are well formed, the window is non-empty, and the cycle count
    /// equals completed requests plus errors.
    pub open spec fn wf(&self) -> bool {
        &&& self.function_stats.wf()
        &&& self.session_stats.wf()
        &&& self.start_time_ns < self.end_time_ns
        &&& self.function_stats.call_count == self.session_stats.req_count
            + self.session_stats.req_error_count
    }
}

/// The verified core of a worker: its window state and session counters.
/// The bound request and the transport handle live with the caller; the
/// caller reports each cycle's outcome here.
pub struct Workload {
    pub state: WorkloadState,
    pub session: SessionStats,
}

impl Workload {
    pub open spec fn wf(&self) -> bool {
        &&& self.state.fn_stats.wf()
        &&& self.session.wf()
        &&& self.state.fn_stats.call_count == self.session.req_count
            + self.session.req_error_count
    }

    /// A fresh worker core whose first window starts at `start_ns`.
    pub fn new(start_ns: u64) -> (r: Workload)
        ensures
            r.wf(),
            r.state.start_time_ns == start_ns,
            r.state.fn_stats.call_count == 0,
            r.session.req_count == 0,
            r.session.req_error_count == 0,
            r.session.queue_length == 0,
            hist_entries(r.state.fn_stats.call_times) == Seq::<(u64, u64)>::empty(),
            hist_entries(r.session.resp_times) == Seq::<(u64, u64)>::empty(),
    {
        Workload {
            state: WorkloadState { start_time_ns: start_ns, fn_stats: FnStats::new() },
            session: SessionStats::new(),
        }
    }

    /// Notes that one request is about to be sent: the queue grows by one.
    pub fn start_request(&mut self)
        requires
            old(self).wf(),
            old(self).session.queue_length < u64::MAX,
            old(self).session.queue_len_sum + old(self).session.queue_length <= u64::MAX,
            old(self).session.queue_len_obs < u64::MAX,
        ensures
            final(self).wf(),
            final(self).state == old(self).state,
            final(self).session.queue_length == old(self).session.queue_length + 1,
            final(self).session.req_count == old(self).session.req_count,
            final(self).session.req_error_count == old(self).session.req_error_count,
    {
        self.session.start_request();
    }

    /// Notes that the request of one cycle completed after `duration_ns`,
    /// successfully when `error` is `None`.  Both histograms record the
    /// duration: with one request per cycle the cycle time is the response
    /// time, and the two are kept separately all the same.
    pub fn complete_cycle(&mut self, duration_ns: u64, error: Option<String>)
        requires
            old(self).wf(),
            old(self).session.queue_length > 0,
            old(self).session.req_count + old(self).session.req_error_count < u64::MAX,
            old(self).session.req_succ_count < u64::MAX,
        ensures
            final(self).wf(),
            final(self).state.start_time_ns == old(self).state.start_time_ns,
            final(self).state.fn_stats.call_count == old(self).state.fn_stats.call_count + 1,
            final(self).session.queue_length == old(self).session.queue_length - 1,
            hist_entries(final(self).state.fn_stats.call_times) == spec_record(
                hist_entries(old(self).state.fn_stats.call_times),
                equiv3(clamp_ns(duration_ns)),
            ),
            hist_entries(final(self).session.resp_times) == spec_record(
                hist_entries(old(self).session.resp_times),
                equiv3(clamp_ns(duration_ns)),
            ),
            error is None ==> {
                &&& final(self).session.req_count == old(self).session.req_count + 1
                &&& final(self).session.req_error_count == old(self).session.req_error_count
                &&& final(self).session.req_errors == old(self).session.req_errors
            },
            error matches Some(msg) ==> {
                &&& final(self).session.req_count == old(self).session.req_count
                &&& final(self).session.req_error_count == old(self).session.req_error_count + 1
                &&& final(self).session.req_errors@ == spec_add_error(
                    old(self).session.req_errors@,
                    msg,
                )
            },
    {
        self.session.complete_request(duration_ns, error);
        self.state.fn_stats.operation_completed(duration_ns);
    }

    /// Sets the workload window start and zeroes all counters.  The current
    /// queue length survives: in-flight requests must still leave the queue.
    pub fn reset(&mut self, start_ns: u64)
        requires
            old(self).wf(),
        ensures
            final(self).wf(),
            final(self).state.start_time_ns == start_ns,
            final(self).state.fn_stats.call_count == 0,
            final(self).session.req_count == 0,
            final(self).session.req_succ_count == 0,
            final(self).session.req_error_count == 0,
            final(self).session.row_count == 0,
            final(self).session.req_errors@.len() == 0,
            final(self).session.queue_length == old(self).session.queue_length,
            hist_entries(final(self).state.fn_stats.call_times) == Seq::<(u64, u64)>::empty(),
            hist_entries(final(self).session.resp_times) == Seq::<(u64, u64)>::empty(),
    {
        self.state.fn_stats.call_count = 0;
        clear_histogram(&mut self.state.fn_stats.call_times);
        self.state.start_time_ns = start_ns;
        self.session.reset();
    }

    /// Returns the statistics gathered since the window start and begins a
    /// fresh window at `end_ns`.
    pub fn take_stats(&mut self, end_ns: u64) -> (r: WorkloadStats)
        requires
            old(self).wf(),
            end_ns > old(self).state.start_time_ns,
        ensures
            final(self).wf(),
            r.wf(),
            r.start_time_ns == old(self).state.start_time_ns,
            r.end_time_ns == end_ns,
            r.function_stats.call_count == old(self).state.fn_stats.call_count,
            hist_entries(r.function_stats.call_times) == hist_entries(
                old(self).state.fn_stats.call_times,
            ),
            r.session_stats.req_count == old(self).session.req_count,
            r.session_stats.req_succ_count == old(self).session.req_succ_count,
            r.session_stats.req_error_count == old(self).session.req_error_count,
            r.session_stats.req_errors == old(self).session.req_errors,
            r.session_stats.row_count == old(self).session.row_count,
            r.session_stats.queue_len_sum == old(self).session.queue_len_sum,
            r.session_stats.queue_len_obs == old(self).session.queue_len_obs,
            hist_entries(r.session_stats.resp_times) == hist_entries(
                old(self).session.resp_times,
            ),
            final(self).state.start_time_ns == end_ns,
            final(self).state.fn_stats.call_count == 0,
            final(self).session.req_count == 0,
            final(self).session.req_error_count == 0,
            final(self).session.queue_length == old(self).session.queue_length,
            hist_entries(final(self).state.fn_stats.call_times) == Seq::<(u64, u64)>::empty(),
            hist_entries(final(self).session.resp_times) == Seq::<(u64, u64)>::empty(),
    {
        let start_time_ns = self.state.start_time_ns;
        let mut function_stats = FnStats::new();
        core::mem::swap(&mut function_stats, &mut self.state.fn_stats);
        let mut session_stats = SessionStats::new();
        core::mem::swap(&mut session_stats, &mut self.session);
        self.session.queue_length = session_stats.queue_length;
        self.state.start_time_ns = end_ns;
        self.state.fn_stats.call_count = 0;
        WorkloadStats { start_time_ns, end_time_ns: end_ns, function_stats, session_stats }
    }
}

/// Law: a reset followed by no operations and then `take_stats` yields a
/// snapshot with zero counts and empty histograms.
pub fn reset_then_take(w: &mut Workload, start_ns: u64, end_ns: u64) -> (r: WorkloadStats)
    requires
        old(w).wf(),
        end_ns > start_ns,
    ensures
        final(w).wf(),
        r.wf(),
        r.function_stats.call_count == 0,
        r.session_stats.req_count == 0,
        r.session_stats.req_succ_count == 0,
        r.session_stats.req_error_count == 0,
        r.session_stats.row_count == 0,
        r.session_stats.req_errors@.len() == 0,
        hist_entries(r.function_stats.call_times) == Seq::<(u64, u64)>::empty(),
        hist_entries(r.session_stats.resp_times) == Seq::<(u64, u64)>::empty(),
{
    w.reset(start_ns);
    w.take_stats(end_ns)
}

} // verus!
