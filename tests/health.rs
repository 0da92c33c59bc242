use std::time::Duration;

use modern_sync::health::CasSuccessTracker;
use modern_sync::health::CasSuccessTrackerConfig;

/// Waits for `d` of wall-clock time.
fn pause(d: Duration) {
    tokio::runtime::Builder::new_current_thread()
        .enable_time()
        .build()
        .unwrap()
        .block_on(async { tokio::time::sleep(d).await });
}

fn tracker(max_failures: usize, secs: u64) -> CasSuccessTracker {
    CasSuccessTracker::new(CasSuccessTrackerConfig {
        max_failures,
        downtime_on_failure: Duration::from_secs(secs),
    })
}

#[test]
fn test_success_tracker() {
    let config = CasSuccessTrackerConfig {
        max_failures: 3,
        downtime_on_failure: Duration::from_secs(1),
    };
    let mut tracker = CasSuccessTracker::new(config);

    // Test that the tracker allows requests when it's healthy
    assert!(tracker.allow_request().unwrap());

    // Test that the tracker doesn't allow requests when it's not healthy
    for _ in 0..3 {
        tracker.record_failure().unwrap();
    }
    assert!(!tracker.allow_request().unwrap());

    // Test that the tracker allows requests after the downtime has passed
    pause(Duration::from_secs(1));
    assert!(tracker.allow_request().unwrap());

    for _ in 0..3 {
        tracker.record_failure().unwrap();
    }
    assert!(!tracker.allow_request().unwrap());

    // Test that the tracker does not allow requests after the downtime has passed again (from the last failure)
    pause(Duration::from_secs(1));
    assert!(!tracker.allow_request().unwrap());

    // Test that the tracker does allow requests after 2 times the downtime has passed (1+1 seconds)
    pause(Duration::from_secs(1));
    assert!(tracker.allow_request().unwrap());

    tracker.record_success();
    assert!(tracker.allow_request().unwrap());

    for _ in 0..3 {
        tracker.record_failure().unwrap();
    }
    assert!(!tracker.allow_request().unwrap());

    // Test that the tracker allows requests after there was a success after a failure
    tracker.record_success();
    assert!(tracker.allow_request().unwrap());
}

#[test]
fn test_success_tracker_exponential_backoff() {
    let config = CasSuccessTrackerConfig {
        max_failures: 1,
        downtime_on_failure: Duration::from_secs(1),
    };
    let mut tracker = CasSuccessTracker::new(config);
    tracker.record_failure().unwrap();
    for i in [1, 2, 4, 8] {
        pause(Duration::from_secs(i - 1));
        assert!(!tracker.allow_request().unwrap()); // exponential backoff is not yet lifted
        pause(Duration::from_secs(1));
        assert!(tracker.allow_request().unwrap()); // exponential backoff is lifted
        tracker.record_failure().unwrap();
    }
}

#[test]
fn new_tracker_reads_downtime_in_milliseconds() {
    let t = CasSuccessTracker::new(CasSuccessTrackerConfig {
        max_failures: 2,
        downtime_on_failure: Duration::from_millis(1500),
    });
    assert_eq!(t.downtime_on_failure_ms, 1500);
    assert_eq!(t.failures_since_last_success, 0);
    assert_eq!(t.number_of_downtimes, 0);
}

#[test]
fn circuit_breaker_trips_after_three_failures() {
    let mut t = tracker(3, 1);
    assert!(t.allow_request_at(0));
    t.record_failure_at(10_000);
    t.record_failure_at(10_000);
    assert!(t.allow_request_at(10_000));
    t.record_failure_at(10_000);
    assert!(!t.allow_request_at(10_000));
    assert!(!t.allow_request_at(10_999));
    assert!(t.allow_request_at(11_000));
    assert_eq!(t.failures_since_last_success, 0);
    assert_eq!(t.number_of_downtimes, 1);
}

#[test]
fn exponential_backoff_doubles_up_to_sixteen_times() {
    let mut t = tracker(1, 1);
    t.record_failure_at(0);
    let mut last = 0u64;
    for wait in [1_000u64, 2_000, 4_000, 8_000, 16_000, 16_000] {
        assert!(!t.allow_request_at(last + wait - 1));
        assert!(t.allow_request_at(last + wait));
        last += wait;
        t.record_failure_at(last);
    }
}

#[test]
fn success_resets_backoff() {
    let mut t = tracker(1, 1);
    t.record_failure_at(0);
    assert!(t.allow_request_at(1_000));
    t.record_failure_at(1_000);
    t.record_success();
    assert_eq!(t.number_of_downtimes, 0);
    assert!(t.allow_request_at(1_000));
    t.record_failure_at(1_000);
    assert!(!t.allow_request_at(1_999));
    assert!(t.allow_request_at(2_000));
}

#[test]
fn clock_behind_last_failure_denies() {
    let mut t = tracker(1, 1);
    t.record_failure_at(5_000);
    assert!(!t.allow_request_at(4_000));
    assert_eq!(t.failures_since_last_success, 1);
}

#[test]
fn backoff_that_overflows_denies() {
    let mut t = CasSuccessTracker::new(CasSuccessTrackerConfig {
        max_failures: 1,
        downtime_on_failure: Duration::from_millis(u64::MAX),
    });
    t.record_failure_at(0);
    assert!(t.allow_request_at(u64::MAX));
    t.record_failure_at(0);
    assert!(!t.allow_request_at(u64::MAX));
}

#[test]
fn zero_threshold_still_waits_for_downtime() {
    let mut t = tracker(0, 1);
    assert!(!t.allow_request_at(999));
    assert!(t.allow_request_at(1_000));
}
