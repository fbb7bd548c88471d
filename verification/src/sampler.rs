//! Periodic draining of workload statistics.
//!
//! The sampler watches cycle completions and decides when a sampling window
//! closes.  On a boundary it takes the workload's snapshot; the caller sends
//! it on.  Two details matter and are pinned down below: a window is not
//! closed near the end of the run (to avoid an excessively small final
//! sample), and after a time-based snapshot the window origin advances by
//! exactly the sampling period, not to `now`, so sampling lag does not
//! accumulate.

use crate::config::Interval;
use crate::cycle::sat_add_u64;
use crate::workload::{Workload, WorkloadStats};
use vstd::prelude::*;

verus! {

/// Decides when to snapshot statistics from a workload.
pub struct Sampler {
    /// Bound of the whole run, used to detect the run's end.
    pub run_duration: Interval,
    /// Sampling period; `Unbounded` means a single sample at the end.
    pub sampling: Interval,
    /// Start of the run, nanoseconds.
    pub start_ns: u64,
    /// Origin of the current sampling window, nanoseconds.
    pub last_snapshot_ns: u64,
    /// Cycle number at the current window's origin.
    pub last_snapshot_cycle: u64,
}

/// `a - b`, clamped at zero.
pub open spec fn sat_sub_u64(a: u64, b: u64) -> u64 {
    if a >= b {
        (a - b) as u64
    } else {
        0u64
    }
}

impl Sampler {
    /// True when the run is not about to end: closing a window now would
    /// still leave room for another sample of roughly the same size.
    pub open spec fn far_from_end(&self, cycle: u64, now_ns: u64) -> bool {
        match self.run_duration {
            Interval::Time(d) => now_ns + sat_sub_u64(now_ns, self.last_snapshot_ns) / 2
                < self.start_ns + d,
            Interval::Count(count) => cycle + sat_sub_u64(cycle, self.last_snapshot_cycle) / 2
                < count,
            Interval::Unbounded => true,
        }
    }

    /// True when the sampling period of the current window has elapsed.
    pub open spec fn window_elapsed(&self, cycle: u64, now_ns: u64) -> bool {
        match self.sampling {
            Interval::Time(d) => now_ns > self.last_snapshot_ns + d,
            Interval::Count(c) => cycle > self.last_snapshot_cycle + c,
            Interval::Unbounded => false,
        }
    }

    /// True exactly when a cycle completion at `now_ns` closes the current
    /// sampling window.
    pub open spec fn should_emit(&self, cycle: u64, now_ns: u64) -> bool {
        self.window_elapsed(cycle, now_ns) && self.far_from_end(cycle, now_ns)
    }

    /// A sampler for a run bounded by `run_duration` that started at
    /// `start_ns`, emitting on `sampling` boundaries.
    pub fn new(run_duration: Interval, sampling: Interval, start_ns: u64) -> (r: Sampler)
        ensures
            r.run_duration == run_duration,
            r.sampling == sampling,
            r.start_ns == start_ns,
            r.last_snapshot_ns == start_ns,
            r.last_snapshot_cycle == 0,
    {
        Sampler {
            run_duration,
            sampling,
            start_ns,
            last_snapshot_ns: start_ns,
            last_snapshot_cycle: 0,
        }
    }

    /// Called when a workload cycle finished at `now_ns`.  Exactly on
    /// sampling boundaries it takes the workload's snapshot and returns it;
    /// with `Unbounded` sampling it never does.  After a time-based snapshot
    /// the window origin advances by exactly the period.
    pub fn cycle_completed(&mut self, w: &mut Workload, cycle: u64, now_ns: u64) -> (r: Option<
        WorkloadStats,
    >)
        requires
            old(w).wf(),
            now_ns > old(w).state.start_time_ns,
        ensures
            final(w).wf(),
            r is Some <==> old(self).should_emit(cycle, now_ns),
            old(self).sampling is Unbounded ==> r is None,
            r is None ==> *final(self) == *old(self) && *final(w) == *old(w),
            r matches Some(s) ==> {
                &&& s.wf()
                &&& s.start_time_ns == old(w).state.start_time_ns
                &&& s.end_time_ns == now_ns
                &&& s.function_stats.call_count == old(w).state.fn_stats.call_count
                &&& s.session_stats.req_count == old(w).session.req_count
                &&& s.session_stats.req_error_count == old(w).session.req_error_count
                &&& s.session_stats.req_errors == old(w).session.req_errors
                &&& crate::hist::hist_entries(s.session_stats.resp_times)
                    == crate::hist::hist_entries(old(w).session.resp_times)
                &&& crate::hist::hist_entries(s.function_stats.call_times)
                    == crate::hist::hist_entries(old(w).state.fn_stats.call_times)
                &&& final(w).state.start_time_ns == now_ns
                &&& final(w).state.fn_stats.call_count == 0
                &&& final(w).session.queue_length == old(w).session.queue_length
            },
            r is Some ==> {
                &&& final(self).run_duration == old(self).run_duration
                &&& final(self).sampling == old(self).sampling
                &&& final(self).start_ns == old(self).start_ns
                &&& (match old(self).sampling {
                    Interval::Time(d) => {
                        &&& final(self).last_snapshot_ns == sat_add_u64(old(self).last_snapshot_ns, d)
                        &&& final(self).last_snapshot_cycle == cycle
                    },
                    Interval::Count(c) => {
                        &&& final(self).last_snapshot_ns == now_ns
                        &&& final(self).last_snapshot_cycle == sat_add_u64(old(self).last_snapshot_cycle, c)
                    },
                    Interval::Unbounded => false,
                })
            },
    {
        let far_from_the_end: bool = match self.run_duration {
            Interval::Time(d) => {
                let dt = now_ns.saturating_sub(self.last_snapshot_ns);
                (now_ns as u128) + (dt as u128) / 2 < (self.start_ns as u128) + (d as u128)
            },
            Interval::Count(count) => {
                let dc = cycle.saturating_sub(self.last_snapshot_cycle);
                (cycle as u128) + (dc as u128) / 2 < count as u128
            },
            Interval::Unbounded => true,
        };
        match self.sampling {
            Interval::Time(d) => {
                let due = (now_ns as u128) > (self.last_snapshot_ns as u128) + (d as u128);
                if due && far_from_the_end {
                    let stats = w.take_stats(now_ns);
                    self.last_snapshot_ns = self.last_snapshot_ns.saturating_add(d);
                    self.last_snapshot_cycle = cycle;
                    Some(stats)
                } else {
                    None
                }
            },
            Interval::Count(c) => {
                let due = (cycle as u128) > (self.last_snapshot_cycle as u128) + (c as u128);
                if due && far_from_the_end {
                    let stats = w.take_stats(now_ns);
                    self.last_snapshot_ns = now_ns;
                    self.last_snapshot_cycle = self.last_snapshot_cycle.saturating_add(c);
                    Some(stats)
                } else {
                    None
                }
            },
            Interval::Unbounded => None,
        }
    }

    /// Finishes the run: takes the one trailing snapshot for the window
    /// still open.  This is the single sample an `Unbounded`-sampling run
    /// emits.
    pub fn finish(self, w: &mut Workload, now_ns: u64) -> (r: WorkloadStats)
        requires
            old(w).wf(),
            now_ns > old(w).state.start_time_ns,
        ensures
            final(w).wf(),
            r.wf(),
            r.start_time_ns == old(w).state.start_time_ns,
            r.end_time_ns == now_ns,
            r.function_stats.call_count == old(w).state.fn_stats.call_count,
            r.session_stats.req_count == old(w).session.req_count,
            r.session_stats.req_error_count == old(w).session.req_error_count,
            r.session_stats.req_errors == old(w).session.req_errors,
    {
        w.take_stats(now_ns)
    }
}

} // verus!
