use cadence_contract::rate_limit_ledger::{
    IssuerRateLimitState, IssuerRateLimiter, RateLimitEvent, RateLimitMetrics,
};

#[test]
fn rate_limit_state_new_sets_burst_allowance() {
    let state = IssuerRateLimitState::new(10, 1000);
    assert_eq!(state.available_tokens, 10);
    assert_eq!(state.last_refill_timestamp, 1000);
}

#[test]
fn rate_limit_state_refill_adds_tokens() {
    let mut state = IssuerRateLimitState::new(5, 1000);
    // 10 seconds later, at 2 tokens/sec, should have 5 + 20 = 25 tokens
    // but capped at burst of 30, so 25
    let refilled = state.refill(2, 30, 1010);
    assert_eq!(refilled, 25);
    assert_eq!(state.available_tokens, 25);
}

#[test]
fn rate_limit_state_refill_caps_at_burst() {
    let mut state = IssuerRateLimitState::new(5, 1000);
    // 100 seconds later would give many tokens, but capped at burst
    let refilled = state.refill(10, 20, 1100);
    assert_eq!(refilled, 20); // Capped at burst
}

#[test]
fn rate_limit_state_try_consume_success() {
    let mut state = IssuerRateLimitState::new(10, 1000);
    assert!(state.try_consume(5));
    assert_eq!(state.available_tokens, 5);
}

#[test]
fn rate_limit_state_try_consume_failure() {
    let mut state = IssuerRateLimitState::new(5, 1000);
    assert!(!state.try_consume(10)); // Need 10, only have 5
    assert_eq!(state.available_tokens, 5); // Token count unchanged
}

#[test]
fn issuer_rate_limiter_check_success() {
    let mut limiter = IssuerRateLimiter::new(10, 20, None);
    assert!(limiter.check("issuer_1", 5, 10));
}

#[test]
fn issuer_rate_limiter_check_failure() {
    let mut limiter = IssuerRateLimiter::new(10, 20, None);
    assert!(!limiter.check("issuer_1", 15, 10));
}

#[test]
fn issuer_rate_limiter_calculate_refilled_tokens() {
    let limiter = IssuerRateLimiter::new(10, 100, None);
    // 5 seconds elapsed, 10 per second = 50 tokens
    let refilled = limiter.calculate_refilled_tokens(30, 1000, 1005);
    assert_eq!(refilled, 80); // 30 + 50 = 80
}

#[test]
fn issuer_rate_limiter_calculate_refilled_tokens_respects_burst() {
    let limiter = IssuerRateLimiter::new(10, 50, None);
    // Would refill to 80, but capped at burst of 50
    let refilled = limiter.calculate_refilled_tokens(30, 1000, 1010);
    assert_eq!(refilled, 50);
}

// ---- further cases ----

#[test]
fn refill_at_earlier_or_same_time_changes_nothing() {
    let mut state = IssuerRateLimitState::new(7, 1000);
    assert_eq!(state.refill(5, 100, 1000), 7);
    assert_eq!(state.refill(5, 100, 900), 7);
    assert_eq!(state.last_refill_timestamp, 1000);
}

#[test]
fn refill_twice_at_same_time_is_refill_once() {
    let mut once = IssuerRateLimitState::new(1, 0);
    let mut twice = IssuerRateLimitState::new(1, 0);
    once.refill(3, 50, 4);
    twice.refill(3, 50, 4);
    twice.refill(3, 50, 4);
    assert_eq!(once.available_tokens, 13);
    assert_eq!(twice.available_tokens, 13);
}

#[test]
fn refill_in_steps_equals_refill_at_once() {
    let mut stepped = IssuerRateLimitState::new(0, 100);
    let mut direct = IssuerRateLimitState::new(0, 100);
    stepped.refill(3, 40, 103);
    stepped.refill(3, 40, 108);
    direct.refill(3, 40, 108);
    assert_eq!(stepped.available_tokens, direct.available_tokens);
    assert_eq!(direct.available_tokens, 24);
}

#[test]
fn refill_saturates_large_products_then_caps() {
    let mut state = IssuerRateLimitState::new(u32::MAX - 1, 0);
    assert_eq!(state.refill(u32::MAX, u32::MAX, 3), u32::MAX);
}

#[test]
fn refill_counts_elapsed_seconds_modulo_u32() {
    // 2^32 + 3 seconds elapse; the count wraps to 3 seconds.
    let mut state = IssuerRateLimitState::new(0, 0);
    assert_eq!(state.refill(1, 1000, (1u64 << 32) + 3), 3);
}

#[test]
fn try_consume_exact_balance_empties() {
    let mut state = IssuerRateLimitState::new(4, 0);
    assert!(state.try_consume(4));
    assert_eq!(state.available_tokens, 0);
    assert!(!state.try_consume(1));
    assert!(state.try_consume(0));
}

#[test]
fn limiter_raises_zero_settings_to_one() {
    let limiter = IssuerRateLimiter::new(0, 0, None);
    assert_eq!(limiter.per_second(), 1);
    assert_eq!(limiter.burst(), 1);
    let limiter = IssuerRateLimiter::new(4, 9, None);
    assert_eq!(limiter.per_second(), 4);
    assert_eq!(limiter.burst(), 9);
}

#[test]
fn limiter_agrees_with_state_refill() {
    let limiter = IssuerRateLimiter::new(6, 45, None);
    let mut state = IssuerRateLimitState::new(12, 2000);
    let computed = limiter.calculate_refilled_tokens(12, 2000, 2004);
    let refilled = state.refill(limiter.per_second(), limiter.burst(), 2004);
    assert_eq!(computed, 36);
    assert_eq!(computed, refilled);
    assert_eq!(limiter.calculate_refilled_tokens(12, 2000, 1999), 12);
}

#[test]
fn check_agrees_with_try_consume() {
    let mut limiter = IssuerRateLimiter::new(1, 10, None);
    let mut state = IssuerRateLimitState::new(3, 0);
    assert_eq!(limiter.check("issuer_2", 3, 3), true);
    assert_eq!(state.try_consume(3), true);
    assert_eq!(limiter.check("issuer_2", 1, 0), false);
    assert_eq!(state.try_consume(1), false);
}

#[test]
fn check_reports_metrics_to_its_handle() {
    let mut limiter = IssuerRateLimiter::new(10, 20, Some(RateLimitMetrics::new()));
    assert!(limiter.check("issuer_1", 5, 10));
    assert!(!limiter.check("issuer_2", 15, 10));
    limiter.record_reset("issuer_3");
    assert_eq!(
        limiter.take_metric_events(),
        vec![
            RateLimitEvent::TokenConsumed,
            RateLimitEvent::RateLimitViolation,
            RateLimitEvent::RateLimitHit { issuer: "issuer_2".to_string() },
            RateLimitEvent::RateLimitReset { issuer: "issuer_3".to_string() },
        ]
    );
    assert!(limiter.take_metric_events().is_empty());
    assert!(limiter.check("issuer_1", 0, 0));
    assert_eq!(limiter.take_metric_events(), vec![RateLimitEvent::TokenConsumed]);
}

#[test]
fn check_without_metrics_handle_reports_nothing() {
    let mut limiter = IssuerRateLimiter::new(10, 20, None);
    assert!(!limiter.check("issuer_1", 15, 10));
    limiter.record_reset("issuer_1");
    assert!(limiter.take_metric_events().is_empty());
}

#[test]
fn refill_caps_count_even_without_elapsed_time() {
    let mut state = IssuerRateLimitState::new(50, 1000);
    assert_eq!(state.refill(1, 20, 1000), 20);
    assert_eq!(state.available_tokens, 20);
    assert_eq!(state.last_refill_timestamp, 1000);
    let mut earlier = IssuerRateLimitState::new(50, 1000);
    assert_eq!(earlier.refill(1, 20, 900), 20);
    assert_eq!(earlier.last_refill_timestamp, 1000);
}
