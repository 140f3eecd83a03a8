use edgars::rate_limit::{Admission, RateLimitError, RateLimiter, SecRateLimiter};
use std::sync::Mutex;

const SECOND: u64 = 1_000_000_000;

#[test]
fn test_try_acquire() {
    let mut limiter = RateLimiter::new(1, SECOND, 0).unwrap();

    assert!(limiter.try_acquire(0)); // First succeeds
    assert!(!limiter.try_acquire(0)); // Second fails immediately
}

#[test]
fn test_rate_limiter_basic() {
    // 2 tokens per second: the third token needs half a second.
    let mut limiter = RateLimiter::new(2, SECOND, 0).unwrap();
    let mut now: u64 = 0;
    let mut granted = 0;
    while granted < 3 {
        match limiter.poll(now) {
            Admission::Granted => granted += 1,
            Admission::Wait(nanos) => now += nanos,
        }
    }
    assert!(now >= 400_000_000);
    assert!(now <= 3 * SECOND);
    assert_eq!(now, 500_000_000);
}

#[test]
fn test_rate_limiter_allows_first_request() {
    let mut limiter = SecRateLimiter::new(0);
    assert!(limiter.check(0));
}

#[test]
fn test_unlimited_rate_limiter() {
    let mut limiter = SecRateLimiter::unlimited();
    assert!(!limiter.is_limited());
    for _ in 0..100 {
        assert!(limiter.check(0));
        assert_eq!(limiter.poll(0), Admission::Granted);
    }
}

#[test]
fn test_rate_limiter_enforcement() {
    let mut limiter = SecRateLimiter::with_rate(2, 0);
    assert_eq!(limiter.poll(0), Admission::Granted);
    assert_eq!(limiter.poll(0), Admission::Granted);
    assert_eq!(limiter.poll(0), Admission::Wait(500_000_000));
    assert_eq!(limiter.poll(499_999_999), Admission::Wait(1));
    assert_eq!(limiter.poll(500_000_000), Admission::Granted);
}

#[test]
fn test_rate_limiter_accuracy() {
    let mut limiter = SecRateLimiter::with_rate(10, 0);
    let mut now: u64 = 0;
    let mut granted = 0;
    while granted < 20 {
        match limiter.poll(now) {
            Admission::Granted => granted += 1,
            Admission::Wait(nanos) => now += nanos,
        }
    }
    // 10 at once, then one every tenth of a second.
    assert_eq!(now, SECOND);
}

#[test]
fn zero_rate_and_zero_interval_are_refused() {
    assert_eq!(RateLimiter::new(0, SECOND, 0).err(), Some(RateLimitError::ZeroRate));
    assert_eq!(RateLimiter::new(5, 0, 0).err(), Some(RateLimitError::ZeroInterval));
    assert_eq!(RateLimiter::new(0, 0, 0).err(), Some(RateLimitError::ZeroRate));
}

#[test]
fn refill_is_capped_and_time_does_not_run_back() {
    let mut limiter = RateLimiter::new(3, SECOND, 1_000).unwrap();
    assert_eq!(limiter.available(), 3);
    assert!(limiter.try_acquire(1_000));
    assert!(limiter.try_acquire(1_000));
    assert!(limiter.try_acquire(1_000));
    assert_eq!(limiter.available(), 0);
    // An instant in the past adds nothing.
    assert!(!limiter.try_acquire(0));
    // A long pause fills the bucket, and no more.
    assert!(limiter.try_acquire(1_000 + 100 * SECOND));
    assert_eq!(limiter.available(), 2);
    assert!(limiter.try_acquire(1_000 + 100 * SECOND));
    assert!(limiter.try_acquire(1_000 + 100 * SECOND));
    assert!(!limiter.try_acquire(1_000 + 100 * SECOND));
}

#[test]
fn wait_is_the_shortfall_rounded_up() {
    let mut limiter = RateLimiter::new(3, SECOND, 0).unwrap();
    for _ in 0..3 {
        assert_eq!(limiter.poll(0), Admission::Granted);
    }
    // One token takes a third of a second, rounded up to a whole nanosecond.
    assert_eq!(limiter.poll(0), Admission::Wait(333_333_334));
    assert_eq!(limiter.poll(333_333_333), Admission::Wait(1));
    assert_eq!(limiter.poll(333_333_334), Admission::Granted);
}

#[test]
fn tokens_consumed_never_exceed_capacity_plus_accrual() {
    // A simulated clock with irregular steps.
    let rate: u32 = 7;
    let interval: u64 = 250_000_000;
    let mut limiter = RateLimiter::new(rate, interval, 0).unwrap();
    let mut now: u64 = 0;
    let mut granted: u128 = 0;
    let mut seed: u64 = 0x9E37_79B9_7F4A_7C15;
    for _ in 0..20_000 {
        seed = seed.wrapping_mul(6364136223846793005).wrapping_add(1442695040888963407);
        now += (seed >> 40) % 50_000_000;
        if limiter.try_acquire(now) {
            granted += 1;
        }
        let budget = (rate as u128) * (interval as u128) + (rate as u128) * (now as u128);
        assert!(granted * (interval as u128) <= budget);
    }
    assert!(granted > 7);
}

#[test]
fn concurrency_thread_safety_for_shared_resources() {
    // Callers that share one limiter take their turns under a lock; no token
    // is handed out twice.
    let shared = Mutex::new(RateLimiter::new(5, SECOND, 0).unwrap());
    let mut granted = 0;
    for caller in 0..4 {
        for _ in 0..3 {
            let mut limiter = shared.lock().unwrap();
            if limiter.try_acquire(caller) {
                granted += 1;
            }
        }
    }
    assert_eq!(granted, 5);
    assert_eq!(shared.lock().unwrap().available(), 0);
}

#[test]
fn a_zero_rate_is_held_to_one_request_per_second() {
    let mut limiter = SecRateLimiter::with_rate(0, 0);
    assert!(limiter.is_limited());
    assert_eq!(limiter.poll(0), Admission::Granted);
    assert_eq!(limiter.poll(0), Admission::Wait(SECOND));
}
