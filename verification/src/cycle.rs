//! Distinct benchmark cycle numbers for multiple threads of execution.
//!
//! Workers draw cycle numbers from a counter shared through an atomic.  Each
//! handle reserves a whole batch at a time and then serves numbers from its
//! local window, so contention on the atomic is paid once per `BATCH_SIZE`
//! numbers.  The contracts below capture three facts: every handle's
//! numbers strictly increase, a handle that was never shared issues exactly
//! the run `start, start + 1, start + 2, ...`, and a handle obtained by
//! `share` starts above everything its parent had issued by then.

use crate::config::Interval;
use std::sync::atomic::{AtomicU64, Ordering};
use std::sync::Arc;
use vstd::prelude::*;

verus! {

/// Cycle numbers are reserved from the shared counter in blocks of this size.
pub const BATCH_SIZE: u64 = 64;

/// Opaque handle to the atomic counter shared by all workers.
///
/// The handle is deliberately opaque: the only operations on the counter are
/// the three functions below, so the lower-bound and exclusivity model stated
/// over [`cycles_floor`] and [`cycles_exclusive`] cannot be bypassed.
#[verifier::external_body]
pub struct SharedCycles {
    inner: Arc<AtomicU64>,
}

/// A value known to be no greater than the current value of the shared
/// counter behind the handle.  The counter is only ever advanced, so a bound
/// once established keeps holding.
pub uninterp spec fn cycles_floor(c: SharedCycles) -> u64;

/// True while this handle is the only route to its counter.  Handles start
/// exclusive and lose exclusivity forever once cloned; while a handle is
/// exclusive, the counter value is exactly `cycles_floor`.
pub uninterp spec fn cycles_exclusive(c: SharedCycles) -> bool;

/// The shared counter value after one batch reservation, or `None` when a
/// further batch would overflow the counter.
pub fn batch_after(x: u64) -> (r: Option<u64>)
    ensures
        x <= u64::MAX - BATCH_SIZE ==> r == Some((x + BATCH_SIZE) as u64),
        x > u64::MAX - BATCH_SIZE ==> r is None,
{
    x.checked_add(BATCH_SIZE)
}

/// Relies on `std::sync::Arc::new` and `std::sync::atomic::AtomicU64::new`:
/// creates a fresh counter holding `start`, reachable through the returned
/// handle alone.
#[verifier::external_body]
fn new_shared(start: u64) -> (r: SharedCycles)
    ensures
        cycles_floor(r) == start,
        cycles_exclusive(r),
{
    SharedCycles { inner: Arc::new(AtomicU64::new(start)) }
}

/// Relies on `std::sync::Arc::clone`: yields a second handle to the same
/// counter.  Afterwards neither handle is the only route to the counter, so
/// both lose exclusivity; the known lower bound carries over to both.
#[verifier::external_body]
fn clone_shared(c: &mut SharedCycles) -> (r: SharedCycles)
    ensures
        cycles_floor(*final(c)) == cycles_floor(*old(c)),
        cycles_floor(r) == cycles_floor(*old(c)),
        !cycles_exclusive(*final(c)),
        !cycles_exclusive(r),
{
    SharedCycles { inner: Arc::clone(&c.inner) }
}

/// Relies on `std::sync::atomic::AtomicU64::fetch_update`: atomically
/// replaces the counter value `v` by [`batch_after`]`(v)` and returns `Ok(v)`,
/// or leaves the counter alone and returns `Err(v)` when `batch_after` yields
/// `None`.  The counter is only ever advanced (here and everywhere), so the
/// returned value is at least any previously established floor, and after a
/// successful reservation `v + BATCH_SIZE` is a floor.  While the handle is
/// exclusive no other party can have advanced the counter, so the returned
/// value is then exactly the floor.
#[verifier::external_body]
fn reserve_batch(c: &mut SharedCycles) -> (r: Result<u64, u64>)
    ensures
        cycles_exclusive(*final(c)) == cycles_exclusive(*old(c)),
        match r {
            Ok(base) => {
                &&& base <= u64::MAX - BATCH_SIZE
                &&& cycles_floor(*old(c)) <= base
                &&& cycles_floor(*final(c)) == base + BATCH_SIZE
                &&& (cycles_exclusive(*old(c)) ==> base == cycles_floor(*old(c)))
            },
            Err(v) => {
                &&& v > u64::MAX - BATCH_SIZE
                &&& cycles_floor(*old(c)) <= v
                &&& cycles_floor(*final(c)) == cycles_floor(*old(c))
                &&& (cycles_exclusive(*old(c)) ==> v == cycles_floor(*old(c)))
            },
        },
{
    c.inner.fetch_update(Ordering::Relaxed, Ordering::Relaxed, |x| batch_after(x))
}

/// True when the elements of `s` strictly increase.
pub open spec fn strictly_increasing(s: Seq<u64>) -> bool {
    forall|i: int, j: int| 0 <= i < j < s.len() ==> s[i] < s[j]
}

/// True when `s` is exactly `start, start + 1, ..., start + s.len() - 1`.
pub open spec fn contiguous_from(s: Seq<u64>, start: u64) -> bool {
    forall|i: int| 0 <= i < s.len() ==> s[i] == start + i
}

/// Provides distinct benchmark cycle numbers to multiple threads of
/// execution.  Cycle numbers increase and never repeat.
pub struct CycleCounter {
    shared: SharedCycles,
    local: u64,
    local_max: u64,
    saturated: bool,
    start: Ghost<u64>,
    low: Ghost<u64>,
    issued: Ghost<Seq<u64>>,
}

impl CycleCounter {
    /// The numbers this handle has issued so far, in order.
    pub closed spec fn issued_cycles(&self) -> Seq<u64> {
        self.issued@
    }

    /// The number this counter was started at.
    pub closed spec fn start_cycle(&self) -> u64 {
        self.start@
    }

    /// True while no other handle shares this counter.
    pub closed spec fn is_exclusive(&self) -> bool {
        cycles_exclusive(self.shared)
    }

    /// A lower bound on the shared counter as known to this handle.
    pub closed spec fn floor(&self) -> u64 {
        cycles_floor(self.shared)
    }

    /// True once the counter ran into the end of the `u64` range; from then
    /// on `next` keeps returning `u64::MAX`.
    pub closed spec fn is_saturated(&self) -> bool {
        self.saturated
    }

    /// A lower bound on every number this handle issues: the shared
    /// counter's floor at the moment the handle was created.
    pub closed spec fn lower_bound(&self) -> u64 {
        self.low@
    }

    pub closed spec fn wf(&self) -> bool {
        &&& self.local <= self.local_max
        &&& (!self.saturated ==> {
            &&& self.local_max <= cycles_floor(self.shared)
            &&& self.local_max <= self.local + BATCH_SIZE
            &&& strictly_increasing(self.issued@)
            &&& (self.issued@.len() > 0 ==> self.issued@.last() < self.local)
            &&& self.low@ <= cycles_floor(self.shared)
            &&& (self.local < self.local_max ==> self.low@ <= self.local)
            &&& (forall|i: int| 0 <= i < self.issued@.len() ==> #[trigger] self.issued@[i]
                >= self.low@)
        })
        &&& (cycles_exclusive(self.shared) && !self.saturated ==> {
            &&& contiguous_from(self.issued@, self.start@)
            &&& (self.local < self.local_max ==> {
                &&& self.local == self.start@ + self.issued@.len()
                &&& self.local_max == cycles_floor(self.shared)
            })
            &&& (self.local == self.local_max ==> cycles_floor(self.shared) == self.start@
                + self.issued@.len())
        })
    }

    /// Creates a new cycle counter, starting at `start`.  The counter is
    /// logically positioned one item before `start`, so the first call to
    /// `next` returns `start`.  No handle ever returns a number below
    /// `start`, not even one obtained later through `share`: the shared
    /// floor starts at `start`, never decreases, and every handle's numbers
    /// stay at or above the floor it was created under.
    pub fn new(start: u64) -> (r: CycleCounter)
        ensures
            r.wf(),
            r.is_exclusive(),
            !r.is_saturated(),
            r.start_cycle() == start,
            r.issued_cycles().len() == 0,
            r.floor() == start,
            r.lower_bound() == start,
    {
        CycleCounter {
            shared: new_shared(start),
            local: 0,
            local_max: 0,
            saturated: false,
            start: Ghost(start),
            low: Ghost(start),
            issued: Ghost(Seq::empty()),
        }
    }

    /// Gets the next cycle number and advances the counter by one.
    ///
    /// Per handle the issued numbers strictly increase, and for a handle that
    /// was never shared they are exactly `start, start + 1, start + 2, ...`
    /// until the whole `u64` range is spent.
    pub fn next(&mut self) -> (r: u64)
        requires
            old(self).wf(),
        ensures
            final(self).wf(),
            final(self).is_exclusive() == old(self).is_exclusive(),
            final(self).start_cycle() == old(self).start_cycle(),
            old(self).is_saturated() ==> final(self).is_saturated(),
            final(self).is_saturated() ==> r == u64::MAX,
            !final(self).is_saturated() ==> final(self).issued_cycles() == old(
                self,
            ).issued_cycles().push(r),
            !final(self).is_saturated() && old(self).issued_cycles().len() > 0 ==> r > old(
                self,
            ).issued_cycles().last(),
            old(self).is_exclusive() && !final(self).is_saturated() ==> r == old(
                self,
            ).start_cycle() + old(self).issued_cycles().len(),
            old(self).is_exclusive() && !old(self).is_saturated() && old(self).floor()
                <= u64::MAX - BATCH_SIZE ==> !final(self).is_saturated(),
            old(self).is_exclusive() && !final(self).is_saturated() ==> final(self).floor()
                <= old(self).floor() + BATCH_SIZE,
            final(self).lower_bound() == old(self).lower_bound(),
            !final(self).is_saturated() ==> r >= old(self).lower_bound(),
            final(self).floor() >= old(self).floor(),
    {
        if self.saturated {
            return u64::MAX;
        }
        if self.local >= self.local_max {
            match reserve_batch(&mut self.shared) {
                Ok(base) => {
                    self.local = base;
                    self.local_max = base + BATCH_SIZE;
                },
                Err(_) => {
                    self.saturated = true;
                    return u64::MAX;
                },
            }
        }
        let r = self.local;
        self.local = self.local + 1;
        proof {
            self.issued@ = self.issued@.push(r);
        }
        r
    }

    /// Creates a new counter sharing the list of cycles with this one.
    /// The new counter never returns a cycle number below the shared
    /// counter's current floor; in particular it never repeats a number this
    /// handle issued before the share.
    pub fn share(&mut self) -> (r: CycleCounter)
        requires
            old(self).wf(),
        ensures
            final(self).wf(),
            r.wf(),
            !final(self).is_exclusive(),
            !r.is_exclusive(),
            final(self).issued_cycles() == old(self).issued_cycles(),
            final(self).is_saturated() == old(self).is_saturated(),
            final(self).start_cycle() == old(self).start_cycle(),
            r.issued_cycles().len() == 0,
            !r.is_saturated(),
            r.floor() == old(self).floor(),
            final(self).floor() == old(self).floor(),
            r.lower_bound() == old(self).floor(),
            final(self).lower_bound() == old(self).lower_bound(),
            !old(self).is_saturated() ==> forall|i: int|
                0 <= i < old(self).issued_cycles().len() ==> #[trigger] old(self).issued_cycles()[
                    i
                ] < old(self).floor(),
    {
        proof {
            if !self.saturated && self.issued@.len() > 0 {
                assert forall|i: int| 0 <= i < self.issued@.len() implies #[trigger] self.issued@[i]
                    < cycles_floor(self.shared) by {
                    if i < self.issued@.len() - 1 {
                        assert(self.issued@[i] < self.issued@[self.issued@.len() - 1]);
                    }
                }
            }
        }
        let ghost share_floor = cycles_floor(self.shared);
        let shared = clone_shared(&mut self.shared);
        CycleCounter {
            shared,
            local: 0,
            local_max: 0,
            saturated: false,
            start: Ghost(self.start@),
            low: Ghost(share_floor),
            issued: Ghost(Seq::empty()),
        }
    }
}

/// While a handle is exclusive, the shared counter sits at most one batch
/// ahead of what the handle has issued.
pub proof fn lemma_exclusive_floor_bound(c: &CycleCounter)
    requires
        c.wf(),
        c.is_exclusive(),
        !c.is_saturated(),
    ensures
        c.floor() <= c.start_cycle() + c.issued_cycles().len() + BATCH_SIZE,
{
}

/// Law: a counter that was never shared issues exactly the gapless run
/// `start, start + 1, ..., start + k - 1` over `k` successive calls (as
/// long as the run stays clear of the top of the `u64` range).
pub fn take_cycles(c: &mut CycleCounter, k: u64) -> (r: Vec<u64>)
    requires
        old(c).wf(),
        old(c).is_exclusive(),
        !old(c).is_saturated(),
        old(c).issued_cycles().len() == 0,
        old(c).start_cycle() + k + 2 * BATCH_SIZE <= u64::MAX,
    ensures
        final(c).wf(),
        r@.len() == k,
        contiguous_from(r@, old(c).start_cycle()),
        final(c).issued_cycles() == r@,
{
    proof {
        lemma_exclusive_floor_bound(c);
    }
    let mut r: Vec<u64> = Vec::new();
    let mut i: u64 = 0;
    while i < k
        invariant
            c.wf(),
            c.is_exclusive(),
            !c.is_saturated(),
            c.start_cycle() == old(c).start_cycle(),
            c.issued_cycles().len() == i,
            i <= k,
            old(c).start_cycle() + k + 2 * BATCH_SIZE <= u64::MAX,
            c.floor() <= old(c).start_cycle() + i + BATCH_SIZE,
            r@.len() == i,
            contiguous_from(r@, old(c).start_cycle()),
            c.issued_cycles() == r@,
        decreases k - i,
    {
        let v = c.next();
        proof {
            lemma_exclusive_floor_bound(c);
        }
        r.push(v);
        i = i + 1;
    }
    r
}

/// Every handle hands out pairwise distinct cycle numbers: the issued
/// sequence of a well-formed, unsaturated handle has no duplicates.
pub proof fn lemma_issued_distinct(c: &CycleCounter)
    requires
        c.wf(),
        !c.is_saturated(),
    ensures
        forall|i: int, j: int|
            0 <= i < j < c.issued_cycles().len() ==> c.issued_cycles()[i] != c.issued_cycles()[j],
{
}

/// Provides distinct benchmark cycle numbers to multiple threads of
/// execution and decides when to stop the benchmark.  The clock is passed in
/// as nanoseconds so the stop decision itself is fully specified.
pub struct BoundedCycleCounter {
    pub duration: Interval,
    start_ns: u64,
    cycle_counter: CycleCounter,
}

impl BoundedCycleCounter {
    /// The configured duration bound.
    pub closed spec fn spec_duration(&self) -> Interval {
        self.duration
    }

    /// The underlying cycle counter.
    pub closed spec fn counter(&self) -> CycleCounter {
        self.cycle_counter
    }

    /// The instant the run clock started, in nanoseconds.
    pub closed spec fn start_time(&self) -> u64 {
        self.start_ns
    }

    pub closed spec fn wf(&self) -> bool {
        self.cycle_counter.wf()
    }

    /// Creates a new counter based on the configured benchmark duration.
    /// For a time-based deadline the clock starts at `now_ns`.
    pub fn new(duration: Interval, now_ns: u64) -> (r: BoundedCycleCounter)
        ensures
            r.wf(),
            r.spec_duration() == duration,
            r.start_time() == now_ns,
            r.counter().is_exclusive(),
            !r.counter().is_saturated(),
            r.counter().start_cycle() == 0,
            r.counter().issued_cycles().len() == 0,
            r.counter().floor() == 0,
    {
        BoundedCycleCounter { duration, start_ns: now_ns, cycle_counter: CycleCounter::new(0) }
    }

    /// Returns the next cycle number, or `None` once the deadline passed or
    /// the cycle count is exhausted.  For a count bound the underlying
    /// counter still advances on the call that detects exhaustion, exactly as
    /// the stop is detected from the drawn number itself.
    pub fn next(&mut self, now_ns: u64) -> (r: Option<u64>)
        requires
            old(self).wf(),
        ensures
            final(self).wf(),
            final(self).spec_duration() == old(self).spec_duration(),
            final(self).start_time() == old(self).start_time(),
            final(self).counter().is_exclusive() == old(self).counter().is_exclusive(),
            match old(self).spec_duration() {
                Interval::Unbounded => r is Some,
                Interval::Time(d) => r is Some <==> now_ns < sat_add_u64(
                    old(self).start_time(),
                    d,
                ),
                Interval::Count(n) => r is Some <==> (!final(self).counter().is_saturated()
                    && final(self).counter().issued_cycles().last() < n),
            },
            (match old(self).spec_duration() {
                Interval::Time(_) => r is None,
                _ => false,
            }) ==> final(self).counter() == old(self).counter(),
            (match old(self).spec_duration() {
                Interval::Time(_) => r is Some,
                Interval::Count(_) => true,
                Interval::Unbounded => true,
            }) ==> {
                &&& !final(self).counter().is_saturated() ==> final(self).counter().issued_cycles()
                    == old(self).counter().issued_cycles().push(
                    final(self).counter().issued_cycles().last(),
                )
                &&& old(self).counter().is_exclusive() && !final(self).counter().is_saturated()
                    ==> final(self).counter().issued_cycles().last() == old(
                    self,
                ).counter().start_cycle() + old(self).counter().issued_cycles().len()
                &&& old(self).counter().is_exclusive() && !old(self).counter().is_saturated()
                    && old(self).counter().floor() <= u64::MAX - BATCH_SIZE
                    ==> !final(self).counter().is_saturated()
            },
            r is Some && !final(self).counter().is_saturated() ==> r == Some(
                final(self).counter().issued_cycles().last(),
            ),
            final(self).counter().start_cycle() == old(self).counter().start_cycle(),
            final(self).counter().lower_bound() == old(self).counter().lower_bound(),
            final(self).counter().floor() >= old(self).counter().floor(),
            old(self).counter().is_saturated() ==> final(self).counter().is_saturated(),
            old(self).counter().is_exclusive() && !final(self).counter().is_saturated()
                ==> final(self).counter().floor() <= old(self).counter().floor() + BATCH_SIZE,
    {
        match self.duration {
            Interval::Count(count) => {
                let result = self.cycle_counter.next();
                if result < count {
                    Some(result)
                } else {
                    None
                }
            },
            Interval::Time(d) => {
                let deadline = self.start_ns.saturating_add(d);
                if now_ns < deadline {
                    Some(self.cycle_counter.next())
                } else {
                    None
                }
            },
            Interval::Unbounded => Some(self.cycle_counter.next()),
        }
    }

    /// Shares this counter, e.g. with another thread.  Both handles keep the
    /// same duration bound and start instant.
    pub fn share(&mut self) -> (r: BoundedCycleCounter)
        requires
            old(self).wf(),
        ensures
            final(self).wf(),
            r.wf(),
            final(self).spec_duration() == old(self).spec_duration(),
            r.spec_duration() == old(self).spec_duration(),
            final(self).start_time() == old(self).start_time(),
            r.start_time() == old(self).start_time(),
            !final(self).counter().is_exclusive(),
            !r.counter().is_exclusive(),
            r.counter().issued_cycles().len() == 0,
    {
        let cycle_counter = self.cycle_counter.share();
        BoundedCycleCounter { duration: self.duration, start_ns: self.start_ns, cycle_counter }
    }
}

/// `a + b` clamped to the `u64` range.
pub open spec fn sat_add_u64(a: u64, b: u64) -> u64 {
    if a + b <= u64::MAX {
        (a + b) as u64
    } else {
        u64::MAX
    }
}

} // verus!
