//! The rate limiter: fingerprint stability against a known digest, the
//! sliding window over rapid requests, recovery once the window elapses,
//! and the bypasses.

use promo_cache::rate_limiter::RateLimiter;
use promo_cache::rate_limiter::RateDecision;
use promo_cache::rate_limiter::generate_fingerprint;
use promo_cache::rate_limiter::is_public_path;

#[test]
fn fingerprint_is_stable_and_hashed() {
    let one = generate_fingerprint("a", "b", "c");
    let two = generate_fingerprint("a", "b", "c");
    assert_eq!(one, two);
    // the digest of "a-b-c", not the triple itself
    assert_eq!(one, "cbd2be7b96f770a0326948ebd158cf539fab0627e8adbddc97f7a65c6a8ae59a");
    assert_ne!(one, generate_fingerprint("a", "b", "d"));
}

#[test]
fn three_requests_pass_the_fourth_is_limited() {
    let mut limiter = RateLimiter::new(3, 1_000, true);
    let fp = generate_fingerprint("10.0.0.1", "agent", "en");
    assert!(limiter.check_at(&fp, 0));
    assert!(limiter.check_at(&fp, 1));
    assert!(limiter.check_at(&fp, 2));
    assert!(!limiter.check_at(&fp, 3));
}

#[test]
fn window_elapse_admits_again() {
    let mut limiter = RateLimiter::new(3, 1_000, true);
    let fp = generate_fingerprint("10.0.0.1", "agent", "en");
    assert!(limiter.check_at(&fp, 0));
    assert!(limiter.check_at(&fp, 1));
    assert!(limiter.check_at(&fp, 2));
    assert!(!limiter.check_at(&fp, 3));
    // a full window later the old instants are pruned
    assert!(limiter.check_at(&fp, 1_002));
}

#[test]
fn fingerprints_do_not_share_windows() {
    let mut limiter = RateLimiter::new(1, 1_000, true);
    let a = generate_fingerprint("10.0.0.1", "agent", "en");
    let b = generate_fingerprint("10.0.0.2", "agent", "en");
    assert!(limiter.check_at(&a, 0));
    assert!(limiter.check_at(&b, 0));
    assert!(!limiter.check_at(&a, 1));
}

#[test]
fn public_paths_and_disable_flag_bypass() {
    let mut limiter = RateLimiter::new(0, 1_000, true);
    let d = limiter.handle_request("/health", "ip", "ua", "al", 0);
    assert!(matches!(d, RateDecision::Bypassed));
    let d2 = limiter.handle_request("/private", "ip", "ua", "al", 0);
    assert!(matches!(d2, RateDecision::Limited));
    let mut off = RateLimiter::new(0, 1_000, false);
    let d3 = off.handle_request("/private", "ip", "ua", "al", 0);
    assert!(matches!(d3, RateDecision::Bypassed));
}

#[test]
fn handle_request_counts_per_fingerprint() {
    let mut limiter = RateLimiter::new(2, 1_000, true);
    assert!(matches!(limiter.handle_request("/private", "ip", "ua", "al", 0), RateDecision::Admitted));
    assert!(matches!(limiter.handle_request("/private", "ip", "ua", "al", 1), RateDecision::Admitted));
    assert!(matches!(limiter.handle_request("/private", "ip", "ua", "al", 2), RateDecision::Limited));
}

#[test]
fn public_endpoint_list_matches_prefixes() {
    assert!(is_public_path("/health"));
    assert!(is_public_path("/ready"));
    assert!(is_public_path("/metrics"));
    assert!(is_public_path("/get-store/jkt-01"));
    assert!(is_public_path("/get-promo"));
    assert!(is_public_path("/get-promo-tenor-by-store/x"));
    assert!(!is_public_path("/create-store"));
}
