use flood::config::Interval;
use flood::sampler::Sampler;
use flood::workload::Workload;

const MS: u64 = 1_000_000;
const S: u64 = 1_000_000_000;

#[test]
fn unbounded_sampling_emits_only_on_finish() {
    let mut w = Workload::new(0);
    let mut sampler = Sampler::new(Interval::Time(2 * S), Interval::Unbounded, 0);
    for cycle in 0..100u64 {
        w.start_request();
        w.complete_cycle(MS, None);
        let now = (cycle + 1) * 10 * MS;
        assert!(sampler.cycle_completed(&mut w, cycle, now).is_none());
    }
    let last = sampler.finish(&mut w, 2 * S);
    assert_eq!(last.function_stats.call_count, 100);
    assert_eq!(last.session_stats.req_count, 100);
}

#[test]
fn time_sampling_emits_three_full_windows_plus_trailer() {
    // a two-second run sampled every 500 ms, one completion every 50 ms
    let mut w = Workload::new(0);
    let mut sampler = Sampler::new(Interval::Time(2 * S), Interval::Time(500 * MS), 0);
    let mut samples = Vec::new();
    for cycle in 0..40u64 {
        let now = (cycle + 1) * 50 * MS;
        w.start_request();
        w.complete_cycle(50 * MS, None);
        if let Some(s) = sampler.cycle_completed(&mut w, cycle, now) {
            samples.push(s);
        }
    }
    assert_eq!(samples.len(), 3);
    for s in &samples {
        let window = s.end_time_ns - s.start_time_ns;
        assert!(window >= 400 * MS && window <= 600 * MS);
    }
    let trailer = sampler.finish(&mut w, 2 * S);
    let total: u64 = samples.iter().map(|s| s.function_stats.call_count).sum::<u64>()
        + trailer.function_stats.call_count;
    assert_eq!(total, 40);
}

#[test]
fn time_sampling_advances_by_exactly_the_period() {
    let mut w = Workload::new(0);
    let mut sampler = Sampler::new(Interval::Unbounded, Interval::Time(500 * MS), 0);
    // the completion that closes the window arrives late, at 700 ms
    w.start_request();
    w.complete_cycle(MS, None);
    assert!(sampler.cycle_completed(&mut w, 0, 700 * MS).is_some());
    // the next window still ends at 1000 ms, not at 1200 ms: a completion
    // at 1100 ms already closes it
    w.start_request();
    w.complete_cycle(MS, None);
    assert!(sampler.cycle_completed(&mut w, 1, 1100 * MS).is_some());
}

#[test]
fn count_sampling_emits_on_cycle_boundaries() {
    let mut w = Workload::new(0);
    let mut sampler = Sampler::new(Interval::Unbounded, Interval::Count(10), 0);
    let mut emitted = Vec::new();
    for cycle in 0..35u64 {
        w.start_request();
        w.complete_cycle(MS, None);
        if sampler.cycle_completed(&mut w, cycle, (cycle + 1) * MS).is_some() {
            emitted.push(cycle);
        }
    }
    assert_eq!(emitted, vec![11, 21, 31]);
}

#[test]
fn no_sample_near_the_end_of_a_count_run() {
    let mut w = Workload::new(0);
    let mut sampler = Sampler::new(Interval::Count(100), Interval::Count(10), 0);
    // cycle 95: window of 95 cycles, another 47 would overrun the bound
    w.start_request();
    w.complete_cycle(MS, None);
    assert!(sampler.cycle_completed(&mut w, 95, 10 * MS).is_none());
    // far from the end the same boundary does emit
    let mut sampler2 = Sampler::new(Interval::Count(1000), Interval::Count(10), 0);
    assert!(sampler2.cycle_completed(&mut w, 95, 20 * MS).is_some());
}
