use flowsurface::limiter::{DynamicBucket, DynamicLimitReason, FixedWindowBucket};

// A timestamp a few seconds into a minute-aligned window.
const T0: u64 = 5_000;

#[test]
fn fixed_window_admits_capacity_then_waits() {
    let mut bucket = FixedWindowBucket::new(10, 60_000, T0);
    for i in 0..10u64 {
        let r = bucket.calculate_wait_time(1, T0 + i);
        assert_eq!(r, None);
    }
    // The eleventh request of weight one must wait, for more than
    // nothing and no longer than the window.
    let wait = bucket.calculate_wait_time(1, T0 + 10);
    match wait {
        Some(w) => {
            assert!(w > 0);
            assert!(w <= 60_000);
        }
        None => panic!("eleventh request was admitted"),
    }
}

#[test]
fn fixed_window_never_refills_within_one_window() {
    // Even requests landing in the first second of the aligned window
    // draw from the same budget: one refill per window, no more.
    let mut bucket = FixedWindowBucket::new(2, 60_000, 0);
    assert_eq!(bucket.calculate_wait_time(1, 0), None);
    assert_eq!(bucket.calculate_wait_time(1, 500), None);
    let wait = bucket.calculate_wait_time(1, 900);
    assert!(wait.is_some());
    // And no tokens are deducted by a refused request.
    assert_eq!(bucket.available_tokens, 0);
}

#[test]
fn fixed_window_refills_after_a_window() {
    let mut bucket = FixedWindowBucket::new(2, 60_000, T0);
    assert_eq!(bucket.calculate_wait_time(2, T0), None);
    assert!(bucket.calculate_wait_time(1, T0 + 1).is_some());
    // A full window later the budget is back.
    assert_eq!(bucket.calculate_wait_time(2, T0 + 60_000), None);
}

#[test]
fn fixed_window_consume_tokens_caps_at_available() {
    let mut bucket = FixedWindowBucket::new(5, 60_000, T0);
    bucket.consume_tokens(3, T0 + 1);
    assert_eq!(bucket.available_tokens, 2);
    bucket.consume_tokens(10, T0 + 2);
    assert_eq!(bucket.available_tokens, 0);
}

#[test]
fn fresh_report_is_authoritative_over_fallback() {
    let mut bucket = DynamicBucket::new(10, 60_000, T0);
    // The venue reports nine of ten used, well within freshness.
    bucket.update_weight(9, T0 + 100);
    // Weight two exceeds the reported headroom, even though the
    // untouched fallback bucket alone would have admitted it.
    let (wait, reason) = bucket.prepare_request(2, T0 + 200);
    assert!(wait.is_some());
    assert_eq!(reason, Some(DynamicLimitReason::HeaderRate));
    // Weight one fits the reported headroom.
    let (wait1, reason1) = bucket.prepare_request(1, T0 + 300);
    assert_eq!(wait1, None);
    assert_eq!(reason1, None);
}

#[test]
fn stale_report_falls_back_to_fixed_window() {
    let mut bucket = DynamicBucket::new(10, 60_000, T0);
    bucket.update_weight(9, T0 + 100);
    // More than one window later the report no longer counts.
    let (wait, reason) = bucket.prepare_request(2, T0 + 100 + 60_001);
    assert_eq!(wait, None);
    assert_eq!(reason, None);
    let _ = wait;
    // Exhausting the fallback budget names the fallback as the reason.
    let mut b2 = DynamicBucket::new(1, 60_000, T0);
    assert_eq!(b2.prepare_request(1, T0 + 1).0, None);
    let (w2, r2) = b2.prepare_request(1, T0 + 2);
    assert!(w2.is_some());
    assert_eq!(r2, Some(DynamicLimitReason::FixedWindowRate));
}

#[test]
fn zero_weight_report_is_ignored() {
    let mut bucket = DynamicBucket::new(10, 60_000, T0);
    bucket.update_weight(0, T0 + 100);
    assert_eq!(bucket.current_used_weight, 0);
    assert_eq!(bucket.last_updated_ms, T0);
}
