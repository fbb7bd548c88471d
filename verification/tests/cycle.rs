use flood::config::Interval;
use flood::cycle::{take_cycles, BoundedCycleCounter, CycleCounter, BATCH_SIZE};
use std::collections::BTreeSet;

#[test]
pub fn cycle_counter_must_return_all_numbers() {
    let mut counter = CycleCounter::new(10);
    for i in 10..(10 + 2 * BATCH_SIZE) {
        let iter = counter.next();
        assert_eq!(i, iter)
    }
}

#[test]
pub fn shared_cycle_counter_must_return_distinct_numbers() {
    let mut counter1 = CycleCounter::new(10);
    let mut counter2 = counter1.share();
    let mut set1 = BTreeSet::new();
    let mut set2 = BTreeSet::new();
    for _ in 10..(10 + 2 * BATCH_SIZE) {
        set1.insert(counter1.next());
        set2.insert(counter2.next());
    }
    let common: Vec<u64> = set1.intersection(&set2).cloned().collect();
    assert_eq!(common, Vec::<u64>::new())
}

#[test]
fn bounded_counter_stops_at_count() {
    let mut counter = BoundedCycleCounter::new(Interval::Count(5), 0);
    for i in 0..5u64 {
        assert_eq!(counter.next(0), Some(i));
    }
    assert_eq!(counter.next(0), None);
    assert_eq!(counter.next(0), None);
}

#[test]
fn bounded_counter_stops_at_deadline() {
    let mut counter = BoundedCycleCounter::new(Interval::Time(1_000_000_000), 500);
    assert_eq!(counter.next(500), Some(0));
    assert_eq!(counter.next(1_000_000_000), Some(1));
    assert_eq!(counter.next(1_000_000_499), Some(2));
    assert_eq!(counter.next(1_000_000_500), None);
    assert_eq!(counter.next(2_000_000_000), None);
}

#[test]
fn bounded_counter_unbounded_never_stops() {
    let mut counter = BoundedCycleCounter::new(Interval::Unbounded, 0);
    for i in 0..200u64 {
        assert_eq!(counter.next(u64::MAX), Some(i));
    }
}

#[test]
fn shared_bounded_counters_split_the_range() {
    let mut a = BoundedCycleCounter::new(Interval::Count(1000), 0);
    let mut b = a.share();
    let mut seen = BTreeSet::new();
    let mut produced = 0u64;
    loop {
        let mut done = true;
        if let Some(v) = a.next(0) {
            assert!(seen.insert(v));
            produced += 1;
            done = false;
        }
        if let Some(v) = b.next(0) {
            assert!(seen.insert(v));
            produced += 1;
            done = false;
        }
        if done {
            break;
        }
    }
    // every cycle number below the bound was handed out exactly once
    assert!(produced >= 1000);
    for i in 0..1000u64 {
        assert!(seen.contains(&i));
    }
}

#[test]
fn counter_saturates_when_no_batch_is_left() {
    // no room for a whole batch above the start: the counter pins at the top
    let mut c = CycleCounter::new(u64::MAX - 10);
    assert_eq!(c.next(), u64::MAX);
    assert_eq!(c.next(), u64::MAX);
}

#[test]
fn counter_issues_the_last_full_batch_before_saturating() {
    let start = u64::MAX - 100;
    let mut c = CycleCounter::new(start);
    for i in 0..64u64 {
        assert_eq!(c.next(), start + i);
    }
    assert_eq!(c.next(), u64::MAX);
}

#[test]
fn take_cycles_returns_the_gapless_run() {
    let mut counter = CycleCounter::new(1000);
    let cycles = take_cycles(&mut counter, 3 * BATCH_SIZE + 7);
    assert_eq!(cycles.len() as u64, 3 * BATCH_SIZE + 7);
    for (i, v) in cycles.iter().enumerate() {
        assert_eq!(*v, 1000 + i as u64);
    }
}
