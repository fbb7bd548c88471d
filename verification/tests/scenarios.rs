//! Whole-run scenarios driven through the library: a bounded cycle source,
//! a worker core, a sampler and a recorder, with the transport simulated.

use flood::config::Interval;
use flood::cycle::BoundedCycleCounter;
use flood::interrupt::InterruptHandler;
use flood::sampler::Sampler;
use flood::stats::Recorder;
use flood::workload::Workload;

const REQUEST_NS: u64 = 100_000;

#[test]
fn count_bounded_run_completes_all_cycles() {
    // one worker, unit concurrency, no rate limit, immediate successes
    let mut counter = BoundedCycleCounter::new(Interval::Count(1000), 0);
    let mut w = Workload::new(0);
    let mut sampler = Sampler::new(Interval::Count(1000), Interval::Unbounded, 0);
    let mut rec = Recorder::start(1, 0);
    let mut now: u64 = 0;
    while let Some(cycle) = counter.next(now) {
        now += REQUEST_NS;
        w.start_request();
        w.complete_cycle(REQUEST_NS, None);
        assert!(sampler.cycle_completed(&mut w, cycle, now).is_none());
    }
    let trailing = sampler.finish(&mut w, now);
    rec.record(&vec![trailing]);
    let stats = rec.finish(now);
    assert_eq!(stats.cycle_count, 1000);
    assert_eq!(stats.error_count, 0);
    assert_eq!(stats.request_count, 1000);
    assert_eq!(stats.log.len(), 1);
}

#[test]
fn failing_every_tenth_request_is_counted_and_classified() {
    let mut counter = BoundedCycleCounter::new(Interval::Count(1000), 0);
    let mut w = Workload::new(0);
    let mut rec = Recorder::start(1, 0);
    let mut now: u64 = 0;
    while let Some(cycle) = counter.next(now) {
        now += REQUEST_NS;
        w.start_request();
        let err = if (cycle + 1) % 10 == 0 {
            Some("server error 500".to_string())
        } else {
            None
        };
        w.complete_cycle(REQUEST_NS, err);
    }
    rec.record(&vec![w.take_stats(now)]);
    let stats = rec.finish(now);
    assert_eq!(stats.cycle_count, 1000);
    assert_eq!(stats.error_count, 100);
    assert_eq!(stats.request_count, 900);
    // one in ten failed: the error ratio derived from these counts is 10%
    assert_eq!(100 * stats.error_count / (stats.request_count + stats.error_count), 10);
    assert!(!stats.errors.is_empty());
    assert!(stats.errors.len() <= 10);
}

#[test]
fn interrupt_stops_the_run_with_partial_stats() {
    let interrupt = InterruptHandler::install();
    let mut counter = BoundedCycleCounter::new(Interval::Count(1_000_000), 0);
    let mut w = Workload::new(0);
    let mut rec = Recorder::start(1, 0);
    let mut now: u64 = 0;
    let mut completed: u64 = 0;
    while let Some(_cycle) = counter.next(now) {
        now += REQUEST_NS;
        w.start_request();
        w.complete_cycle(REQUEST_NS, None);
        completed += 1;
        if completed == 100 {
            interrupt.raise();
        }
        if interrupt.is_interrupted() {
            break;
        }
    }
    rec.record(&vec![w.take_stats(now)]);
    let stats = rec.finish(now);
    assert_eq!(stats.cycle_count, 100);
    assert_eq!(stats.error_count, 0);
}
