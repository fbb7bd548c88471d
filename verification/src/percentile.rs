//! The fixed set of percentile points reported for every histogram.

use vstd::prelude::*;

verus! {

/// Number of percentile points in every percentile vector.
pub const PERCENTILE_COUNT: usize = 15;

/// The fifteen percentile points reported for response and cycle times.
#[allow(non_camel_case_types)]
#[derive(Clone, Copy, PartialEq, Eq, Structural, Debug)]
pub enum Percentile {
    Min,
    P1,
    P2,
    P5,
    P10,
    P25,
    P50,
    P75,
    P90,
    P95,
    P98,
    P99,
    P99_9,
    P99_99,
    Max,
}

impl Percentile {
    /// Position of this point inside a percentile vector.
    pub fn index(&self) -> (r: usize)
        ensures
            r == self.spec_index(),
            r < PERCENTILE_COUNT,
    {
        match *self {
            Percentile::Min => 0,
            Percentile::P1 => 1,
            Percentile::P2 => 2,
            Percentile::P5 => 3,
            Percentile::P10 => 4,
            Percentile::P25 => 5,
            Percentile::P50 => 6,
            Percentile::P75 => 7,
            Percentile::P90 => 8,
            Percentile::P95 => 9,
            Percentile::P98 => 10,
            Percentile::P99 => 11,
            Percentile::P99_9 => 12,
            Percentile::P99_99 => 13,
            Percentile::Max => 14,
        }
    }

    pub open spec fn spec_index(&self) -> usize {
        match *self {
            Percentile::Min => 0usize,
            Percentile::P1 => 1usize,
            Percentile::P2 => 2usize,
            Percentile::P5 => 3usize,
            Percentile::P10 => 4usize,
            Percentile::P25 => 5usize,
            Percentile::P50 => 6usize,
            Percentile::P75 => 7usize,
            Percentile::P90 => 8usize,
            Percentile::P95 => 9usize,
            Percentile::P98 => 10usize,
            Percentile::P99 => 11usize,
            Percentile::P99_9 => 12usize,
            Percentile::P99_99 => 13usize,
            Percentile::Max => 14usize,
        }
    }

    /// The percentile rank of this point in hundredths of a percent,
    /// so `P99_99` is `9999` and `Max` is `10000`.
    pub fn value(&self) -> (r: u64)
        ensures
            r == self.spec_value(),
            r <= 10000,
    {
        match *self {
            Percentile::Min => 0,
            Percentile::P1 => 100,
            Percentile::P2 => 200,
            Percentile::P5 => 500,
            Percentile::P10 => 1000,
            Percentile::P25 => 2500,
            Percentile::P50 => 5000,
            Percentile::P75 => 7500,
            Percentile::P90 => 9000,
            Percentile::P95 => 9500,
            Percentile::P98 => 9800,
            Percentile::P99 => 9900,
            Percentile::P99_9 => 9990,
            Percentile::P99_99 => 9999,
            Percentile::Max => 10000,
        }
    }

    pub open spec fn spec_value(&self) -> u64 {
        match *self {
            Percentile::Min => 0u64,
            Percentile::P1 => 100u64,
            Percentile::P2 => 200u64,
            Percentile::P5 => 500u64,
            Percentile::P10 => 1000u64,
            Percentile::P25 => 2500u64,
            Percentile::P50 => 5000u64,
            Percentile::P75 => 7500u64,
            Percentile::P90 => 9000u64,
            Percentile::P95 => 9500u64,
            Percentile::P98 => 9800u64,
            Percentile::P99 => 9900u64,
            Percentile::P99_9 => 9990u64,
            Percentile::P99_99 => 9999u64,
            Percentile::Max => 10000u64,
        }
    }

    /// Fixed-width label used in report tables.
    pub fn name(&self) -> (r: &'static str) {
        match *self {
            Percentile::Min => "  Min   ",
            Percentile::P1 => "    1   ",
            Percentile::P2 => "    2   ",
            Percentile::P5 => "    5   ",
            Percentile::P10 => "   10   ",
            Percentile::P25 => "   25   ",
            Percentile::P50 => "   50   ",
            Percentile::P75 => "   75   ",
            Percentile::P90 => "   90   ",
            Percentile::P95 => "   95   ",
            Percentile::P98 => "   98   ",
            Percentile::P99 => "   99   ",
            Percentile::P99_9 => "   99.9 ",
            Percentile::P99_99 => "  99.99",
            Percentile::Max => "  Max   ",
        }
    }

    /// All points in report order.
    pub fn all() -> (r: Vec<Percentile>)
        ensures
            r@.len() == PERCENTILE_COUNT,
            forall|i: int| 0 <= i < r@.len() ==> #[trigger] r@[i].spec_index() == i,
    {
        let points = vec![
            Percentile::Min,
            Percentile::P1,
            Percentile::P2,
            Percentile::P5,
            Percentile::P10,
            Percentile::P25,
            Percentile::P50,
            Percentile::P75,
            Percentile::P90,
            Percentile::P95,
            Percentile::P98,
            Percentile::P99,
            Percentile::P99_9,
            Percentile::P99_99,
            Percentile::Max,
        ];
        points
    }
}

} // verus!
