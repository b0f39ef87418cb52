use blackjack::rate_limit::RateLimiter;

#[test]
fn fourth_call_in_the_window_is_denied() {
    let mut limiter = RateLimiter::new(60, 3);
    let actor = "a@x".to_string();
    assert!(limiter.allow(1, &actor, 100));
    assert!(limiter.allow(1, &actor, 110));
    assert!(limiter.allow(1, &actor, 120));
    assert!(!limiter.allow(1, &actor, 130));
}

#[test]
fn admission_returns_after_the_window_elapses() {
    let mut limiter = RateLimiter::new(60, 3);
    let actor = "a@x".to_string();
    assert!(limiter.allow(1, &actor, 100));
    assert!(limiter.allow(1, &actor, 100));
    assert!(limiter.allow(1, &actor, 100));
    assert!(!limiter.allow(1, &actor, 130));
    assert!(limiter.allow(1, &actor, 161));
}

#[test]
fn a_denied_request_records_nothing() {
    // Three admissions at 100; denials at 130 and 150 must not extend
    // the window, so 161 is admitted again.
    let mut limiter = RateLimiter::new(60, 3);
    let actor = "a@x".to_string();
    assert!(limiter.allow(1, &actor, 100));
    assert!(limiter.allow(1, &actor, 100));
    assert!(limiter.allow(1, &actor, 100));
    assert!(!limiter.allow(1, &actor, 130));
    assert!(!limiter.allow(1, &actor, 150));
    assert!(limiter.allow(1, &actor, 161));
}

#[test]
fn limits_are_per_session_and_actor() {
    let mut limiter = RateLimiter::new(60, 1);
    let a = "a@x".to_string();
    let b = "b@x".to_string();
    assert!(limiter.allow(1, &a, 100));
    assert!(!limiter.allow(1, &a, 101));
    assert!(limiter.allow(1, &b, 101));
    assert!(limiter.allow(2, &a, 101));
}

#[test]
fn a_zero_budget_denies_everything() {
    let mut limiter = RateLimiter::new(60, 0);
    let a = "a@x".to_string();
    assert!(!limiter.allow(1, &a, 100));
    assert!(!limiter.allow(1, &a, 200));
}
