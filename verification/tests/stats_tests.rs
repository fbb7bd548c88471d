use flood::hist::{histogram_entries, new_histogram, record_nanos};
use flood::percentile::{Percentile, PERCENTILE_COUNT};
use flood::stats::{
    distribution, percentiles_ns, value_at_percentile, value_at_point, Bucket, Recorder, Sample,
};
use flood::workload::Workload;

const S: u64 = 1_000_000_000;

fn run_worker(start_ns: u64, end_ns: u64, cycles: u64, fail_every: u64) -> flood::workload::WorkloadStats {
    let mut w = Workload::new(start_ns);
    for i in 0..cycles {
        w.start_request();
        let err = if fail_every > 0 && (i + 1) % fail_every == 0 {
            Some("transport error".to_string())
        } else {
            None
        };
        w.complete_cycle((i + 1) * 1000, err);
    }
    w.take_stats(end_ns)
}

#[test]
fn sample_merges_worker_snapshots() {
    let s1 = run_worker(100, S + 100, 30, 0);
    let s2 = run_worker(200, S + 200, 20, 10);
    let sample = Sample::new(100, &vec![s1, s2]);
    assert_eq!(sample.time_ns, 0);
    assert_eq!(sample.duration_ns, S);
    assert_eq!(sample.cycle_count, 50);
    assert_eq!(sample.error_count, 2);
    assert_eq!(sample.request_count, 48);
    assert_eq!(sample.cycle_count, sample.request_count + sample.error_count);
    assert_eq!(sample.errors, vec!["transport error".to_string()]);
    assert!(sample.duration_ns > 0);
    assert_eq!(sample.resp_time_percentiles_ns.len(), PERCENTILE_COUNT);
}

#[test]
fn recorder_accumulates_and_finishes() {
    let mut rec = Recorder::start(4, 0);
    let batch1 = vec![run_worker(10, S, 100, 10), run_worker(10, S, 100, 0)];
    rec.record(&batch1);
    let batch2 = vec![run_worker(S, 2 * S, 50, 10)];
    rec.record(&batch2);
    assert_eq!(rec.log.len(), 2);
    let stats = rec.finish(2 * S);
    assert_eq!(stats.elapsed_ns, 2 * S);
    assert_eq!(stats.cycle_count, 250);
    assert_eq!(stats.error_count, 15);
    assert_eq!(stats.request_count, 235);
    assert_eq!(stats.cycle_count, stats.request_count + stats.error_count);
    assert_eq!(stats.errors, vec!["transport error".to_string()]);
    assert_eq!(stats.concurrency_limit, 4);
    assert_eq!(stats.log.len(), 2);
    // the last distribution bucket accounts for every recording
    assert_eq!(stats.cycle_time.distribution.last().unwrap().cumulative_count, 250);
    let resp = stats.resp_time.as_ref().unwrap();
    assert_eq!(resp.distribution.last().unwrap().cumulative_count, 250);
    let pcts = &resp.percentiles_ns;
    assert_eq!(pcts.len(), PERCENTILE_COUNT);
    for i in 1..pcts.len() {
        assert!(pcts[i - 1] <= pcts[i]);
    }
}

#[test]
fn resp_percentiles_absent_without_successful_requests() {
    let mut rec = Recorder::start(1, 0);
    rec.record(&vec![run_worker(10, S, 5, 1)]);
    let stats = rec.finish(S);
    assert_eq!(stats.request_count, 0);
    assert_eq!(stats.error_count, 5);
    assert!(stats.resp_time.is_none());
}

#[test]
fn interrupted_run_keeps_partial_counts() {
    // the executor stops feeding cycles once the interrupt flag is seen;
    // whatever was recorded until then stands
    let mut rec = Recorder::start(1, 0);
    rec.record(&vec![run_worker(10, S, 100, 0)]);
    let stats = rec.finish(S);
    assert_eq!(stats.cycle_count, 100);
    assert_eq!(stats.error_count, 0);
}

#[test]
fn percentile_ranks_take_the_ceiling() {
    let entries = vec![(100u64, 1u64), (200, 1), (300, 1), (400, 1)];
    assert_eq!(value_at_percentile(&entries, 0), 100);
    assert_eq!(value_at_percentile(&entries, 5000), 200);
    assert_eq!(value_at_percentile(&entries, 7500), 300);
    assert_eq!(value_at_percentile(&entries, 10000), 400);
    assert_eq!(value_at_point(&entries, Percentile::P50), 200);
    assert_eq!(value_at_point(&entries, Percentile::Max), 400);
    let empty: Vec<(u64, u64)> = Vec::new();
    assert_eq!(value_at_percentile(&empty, 5000), 0);
    // a fractional target rounds up: the 1st percentile of 1020 recordings
    // asks for the 11th, which lies in the second bucket
    let skewed = vec![(1u64, 10u64), (2, 1010)];
    assert_eq!(value_at_percentile(&skewed, 100), 2);
}

#[test]
fn percentile_vector_is_monotone() {
    let entries = vec![(10u64, 90u64), (1000, 9), (100_000, 1)];
    let pcts = percentiles_ns(&entries);
    assert_eq!(pcts.len(), PERCENTILE_COUNT);
    for i in 1..pcts.len() {
        assert!(pcts[i - 1] <= pcts[i]);
    }
    assert_eq!(pcts[0], 10);
    assert_eq!(pcts[PERCENTILE_COUNT - 1], 100_000);
}

#[test]
fn single_value_histogram_has_flat_percentiles() {
    let mut h = new_histogram();
    for _ in 0..7 {
        record_nanos(&mut h, 500);
    }
    let entries = histogram_entries(&h);
    assert_eq!(entries, vec![(500, 7)]);
    let pcts = percentiles_ns(&entries);
    for p in pcts {
        assert_eq!(p, 500);
    }
}

#[test]
fn distribution_buckets_follow_the_log_scale() {
    let entries = vec![(1000u64, 5u64), (150_000, 3), (400_000, 2)];
    let buckets = distribution(&entries);
    assert_eq!(
        buckets,
        vec![
            Bucket { upper_ns: 100_000, count: 5, cumulative_count: 5 },
            Bucket { upper_ns: 215_443, count: 3, cumulative_count: 8 },
            Bucket { upper_ns: 464_157, count: 2, cumulative_count: 10 },
        ]
    );
}

#[test]
fn distribution_of_empty_entries_is_empty() {
    let empty: Vec<(u64, u64)> = Vec::new();
    assert!(distribution(&empty).is_empty());
}

#[test]
fn percentile_points_and_names() {
    assert_eq!(Percentile::Min.value(), 0);
    assert_eq!(Percentile::P50.value(), 5000);
    assert_eq!(Percentile::P99_99.value(), 9999);
    assert_eq!(Percentile::Max.value(), 10000);
    assert_eq!(Percentile::Min.name(), "  Min   ");
    assert_eq!(Percentile::P99_9.name(), "   99.9 ");
    assert_eq!(Percentile::all().len(), PERCENTILE_COUNT);
    assert_eq!(Percentile::P50.index(), 6);
}

#[test]
fn sample_keeps_per_worker_queue_observations() {
    let mut busy = Workload::new(0);
    busy.start_request();
    busy.start_request();
    busy.complete_cycle(1_000, None);
    busy.complete_cycle(1_000, None);
    let busy_stats = busy.take_stats(S);
    let mut idle = Workload::new(0);
    let idle_stats = idle.take_stats(S);
    let sample = Sample::new(0, &vec![busy_stats, idle_stats]);
    // queue lengths 0 and 1 were observed at the two starts of the busy
    // worker; the idle worker saw none
    assert_eq!(sample.queue_pairs, vec![(1, 2), (0, 0)]);
    assert_eq!(sample.queue_len_sum, 1);
    assert_eq!(sample.queue_len_obs, 2);
}
