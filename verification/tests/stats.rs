use gmsv_rhttp::budget::BodyBudget;
use gmsv_rhttp::limits::{MAX_BUFFERED_BODY, MAX_IN_FLIGHT_REQUESTS};
use gmsv_rhttp::stats::{HttpStats, StatsSnapshot};

#[test]
fn request_lifecycle_updates_stats() {
    let mut stats = HttpStats::new();
    let request = stats
        .try_request_started()
        .expect("request should be admitted");
    assert_eq!(stats.snapshot().submitted, 1);
    assert_eq!(stats.snapshot().in_flight, 1);
    stats.request_finished(request);
    assert_eq!(stats.snapshot().in_flight, 0);
}

#[test]
fn new_counters_are_zero() {
    assert_eq!(HttpStats::new().snapshot(), StatsSnapshot::default());
    assert_eq!(StatsSnapshot::default().submitted, 0);
    assert_eq!(StatsSnapshot::default().cancelled, 0);
}

#[test]
fn request_limit_is_kept() {
    let mut stats = HttpStats::new();
    let mut places = Vec::new();
    for _ in 0..1024 {
        places.push(stats.try_request_started().expect("a place is free"));
    }
    assert_eq!(MAX_IN_FLIGHT_REQUESTS, 1024);
    assert!(stats.try_request_started().is_none());
    assert_eq!(stats.snapshot().in_flight, 1024);
    assert_eq!(stats.snapshot().submitted, 1024);

    stats.request_finished(places.pop().expect("a place is taken"));
    assert!(stats.try_request_started().is_some());
    assert_eq!(stats.snapshot().in_flight, 1024);
    assert_eq!(stats.snapshot().submitted, 1025);
}

#[test]
fn started_then_finished_moves_only_submitted() {
    let mut stats = HttpStats::new();
    stats.retried();
    let before = stats.snapshot();
    let place = stats.try_request_started().expect("a place is free");
    stats.request_finished(place);
    assert_eq!(
        stats.snapshot(),
        StatsSnapshot {
            submitted: 1,
            ..before
        }
    );
}

#[test]
fn each_event_moves_its_own_counter() {
    let mut stats = HttpStats::new();
    stats.succeeded();
    stats.failed();
    stats.failed();
    stats.retried();
    stats.retried();
    stats.retried();
    stats.cancelled();
    stats.cancelled();
    stats.cancelled();
    stats.cancelled();
    assert_eq!(
        stats.snapshot(),
        StatsSnapshot {
            submitted: 0,
            in_flight: 0,
            succeeded: 1,
            failed: 2,
            retried: 3,
            cancelled: 4,
        }
    );
}

#[test]
fn counters_balance_once_every_request_has_ended() {
    let mut stats = HttpStats::new();
    for end in 0..9 {
        let place = stats.try_request_started().expect("a place is free");
        stats.retried();
        match end % 3 {
            0 => stats.succeeded(),
            1 => stats.failed(),
            _ => stats.cancelled(),
        }
        stats.request_finished(place);
    }
    let now = stats.snapshot();
    assert_eq!(
        now.submitted,
        now.in_flight + now.succeeded + now.failed + now.cancelled
    );
    assert_eq!(now.submitted, 9);
    assert_eq!(now.retried, 9);
}

#[test]
fn body_budget_is_kept() {
    let mut budget = BodyBudget::new();
    assert_eq!(budget.used(), 0);
    assert!(budget.try_reserve(MAX_BUFFERED_BODY - 1));
    assert!(!budget.try_reserve(2));
    assert_eq!(budget.used(), 67_108_863);
    assert!(budget.try_reserve(1));
    assert!(!budget.try_reserve(1));
    assert!(budget.try_reserve(0));
    assert!(!budget.try_reserve(usize::MAX));
    budget.release(64);
    assert_eq!(budget.used(), 67_108_800);
    assert!(budget.try_reserve(64));
}
