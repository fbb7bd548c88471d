use flood::bootstrap::Bootstrap;
use flood::config::Interval;
use flood::hdrlog::valid_tag_prefix;
use flood::hist::{histogram_entries, new_histogram, record_nanos};
use flood::interrupt::InterruptHandler;

#[test]
fn interval_classification() {
    assert!(Interval::Time(5).is_bounded());
    assert!(Interval::Count(5).is_bounded());
    assert!(!Interval::Unbounded.is_bounded());
    assert_eq!(Interval::Count(7).count(), Some(7));
    assert_eq!(Interval::Time(7).count(), None);
    assert_eq!(Interval::Time(9).nanos(), Some(9));
    assert_eq!(Interval::Unbounded.nanos(), None);
}

#[test]
fn tag_prefixes_reject_commas_and_whitespace() {
    assert!(valid_tag_prefix(&b"latency.run1.".to_vec()));
    assert!(valid_tag_prefix(&Vec::new()));
    assert!(!valid_tag_prefix(&b"a,b".to_vec()));
    assert!(!valid_tag_prefix(&b"a b".to_vec()));
    assert!(!valid_tag_prefix(&b"a\nb".to_vec()));
    assert!(!valid_tag_prefix(&b"a\tb".to_vec()));
}

#[test]
fn interrupt_flag_starts_unset_and_sticks() {
    let handler = InterruptHandler::install();
    assert!(!handler.is_interrupted());
    let shared = handler.share();
    shared.raise();
    assert!(handler.is_interrupted());
    assert!(shared.is_interrupted());
}

#[test]
fn bootstrap_draws_recorded_values() {
    let mut h = new_histogram();
    for _ in 0..3 {
        record_nanos(&mut h, 100);
    }
    record_nanos(&mut h, 900);
    let entries = histogram_entries(&h);
    let mut bootstrap = Bootstrap::new(&entries);
    for _ in 0..200 {
        let v = bootstrap.sample();
        assert!(v == 100 || v == 900);
    }
}
