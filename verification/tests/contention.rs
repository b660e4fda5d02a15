use wait_free::{ContentionMeasure, CONTENTION_THRESHOLD, RETRY_THRESHOLD};

#[test]
fn thresholds_have_their_values() {
    assert_eq!(CONTENTION_THRESHOLD, 2);
    assert_eq!(RETRY_THRESHOLD, 2);
}

#[test]
fn first_detection_is_tolerated_second_is_not() {
    let mut m = ContentionMeasure::new();
    assert!(m.detected().is_ok());
    assert!(m.detected().is_err());
}

#[test]
fn contention_persists_once_reported() {
    let mut m = ContentionMeasure::new();
    let _ = m.detected();
    assert!(m.detected().is_err());
    for _ in 0..10 {
        assert!(m.detected().is_err());
    }
}

#[test]
fn slow_path_only_after_more_than_threshold_events() {
    let mut m = ContentionMeasure::new();
    assert!(!m.use_slow_path());
    let _ = m.detected();
    assert!(!m.use_slow_path());
    let _ = m.detected();
    assert!(!m.use_slow_path());
    let r = m.detected();
    assert!(r.is_err());
    assert!(m.use_slow_path());
}
