//! Run, warmup and sampling bounds.

use vstd::prelude::*;

verus! {

/// A bound on a benchmark phase: a wall-clock duration, a cycle count,
/// or no bound at all.  Durations are carried in nanoseconds.
#[derive(Clone, Copy, PartialEq, Eq, Structural, Debug)]
pub enum Interval {
    Time(u64),
    Count(u64),
    Unbounded,
}

impl Interval {
    /// True unless the interval is `Unbounded`.
    pub fn is_bounded(&self) -> (r: bool)
        ensures
            r == !(*self is Unbounded),
    {
        !matches!(*self, Interval::Unbounded)
    }

    /// The cycle count bound, if this is a count interval.
    pub fn count(&self) -> (r: Option<u64>)
        ensures
            r == (match *self {
                Interval::Count(n) => Some(n),
                _ => None::<u64>,
            }),
    {
        match *self {
            Interval::Count(n) => Some(n),
            _ => None,
        }
    }

    /// The duration bound in nanoseconds, if this is a time interval.
    pub fn nanos(&self) -> (r: Option<u64>)
        ensures
            r == (match *self {
                Interval::Time(d) => Some(d),
                _ => None::<u64>,
            }),
    {
        match *self {
            Interval::Time(d) => Some(d),
            _ => None,
        }
    }
}

} // verus!
