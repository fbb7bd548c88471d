use flood::hist::{histogram_entries, histogram_total};
use flood::session::{add_error, SessionStats, MAX_KEPT_ERRORS};
use flood::workload::{reset_then_take, Workload};

#[test]
fn session_counts_successes_and_errors() {
    let mut s = SessionStats::new();
    s.start_request();
    assert_eq!(s.queue_length, 1);
    s.complete_request(1_000_000, None);
    assert_eq!(s.queue_length, 0);
    s.start_request();
    s.complete_request(2_000_000, Some("timeout".to_string()));
    assert_eq!(s.req_count, 1);
    assert_eq!(s.req_succ_count, 1);
    assert_eq!(s.req_error_count, 1);
    assert_eq!(s.req_errors, vec!["timeout".to_string()]);
    assert_eq!(histogram_total(&s.resp_times), 2);
}

#[test]
fn error_set_is_deduplicated_and_capped() {
    let mut errs: Vec<String> = Vec::new();
    for _round in 0..3 {
        for i in 0..(MAX_KEPT_ERRORS + 5) {
            add_error(&mut errs, format!("error {i}"));
        }
    }
    assert_eq!(errs.len(), MAX_KEPT_ERRORS);
    for i in 0..MAX_KEPT_ERRORS {
        assert_eq!(errs[i], format!("error {i}"));
    }
}

#[test]
fn reset_keeps_the_queue_length() {
    let mut s = SessionStats::new();
    s.start_request();
    s.start_request();
    s.complete_request(5_000, None);
    s.reset();
    assert_eq!(s.queue_length, 1);
    assert_eq!(s.req_count, 0);
    assert_eq!(s.req_error_count, 0);
    assert!(s.req_errors.is_empty());
    assert_eq!(histogram_total(&s.resp_times), 0);
}

#[test]
fn reset_then_take_stats_is_empty() {
    let mut w = Workload::new(0);
    for i in 0..10u64 {
        w.start_request();
        let err = if i % 2 == 0 { None } else { Some("boom".to_string()) };
        w.complete_cycle(1_000 * (i + 1), err);
    }
    let snapshot = reset_then_take(&mut w, 50, 100);
    assert_eq!(snapshot.start_time_ns, 50);
    assert_eq!(snapshot.end_time_ns, 100);
    assert_eq!(snapshot.function_stats.call_count, 0);
    assert_eq!(snapshot.session_stats.req_count, 0);
    assert_eq!(snapshot.session_stats.req_error_count, 0);
    assert!(snapshot.session_stats.req_errors.is_empty());
    assert!(histogram_entries(&snapshot.session_stats.resp_times).is_empty());
    assert!(histogram_entries(&snapshot.function_stats.call_times).is_empty());
}

#[test]
fn cycles_equal_requests_plus_errors() {
    let mut w = Workload::new(0);
    for i in 0..25u64 {
        w.start_request();
        let err = if i % 10 == 9 { Some("every tenth fails".to_string()) } else { None };
        w.complete_cycle(500_000, err);
    }
    let stats = w.take_stats(1_000_000_000);
    assert_eq!(stats.function_stats.call_count, 25);
    assert_eq!(stats.session_stats.req_count, 23);
    assert_eq!(stats.session_stats.req_error_count, 2);
    assert_eq!(
        stats.function_stats.call_count,
        stats.session_stats.req_count + stats.session_stats.req_error_count
    );
}
