use edgars::retry::{RetryDecision, RetryPolicy, RetryState};
use std::cell::{Cell, RefCell};

#[test]
fn retry_test_retry_success_first_attempt() {
    let policy = RetryPolicy::new(3);
    let call_count = Cell::new(0);

    let result = policy.execute(
        || {
            call_count.set(call_count.get() + 1);
            Ok::<_, String>(42)
        },
        |_e: &String| true,
        |_ms| {},
    );

    assert_eq!(result, Ok(42));
    assert_eq!(call_count.get(), 1);
}

#[test]
fn retry_test_retry_eventual_success() {
    let policy = RetryPolicy::new(3);
    let call_count = Cell::new(0);
    let pauses = RefCell::new(Vec::new());

    let result = policy.execute(
        || {
            call_count.set(call_count.get() + 1);
            if call_count.get() < 3 {
                Err("temporary error".to_string())
            } else {
                Ok(42)
            }
        },
        |_e: &String| true,
        |ms| pauses.borrow_mut().push(ms),
    );

    assert_eq!(result, Ok(42));
    assert_eq!(call_count.get(), 3);
    assert_eq!(*pauses.borrow(), vec![100, 200]);
}

#[test]
fn the_last_error_is_returned_when_attempts_run_out() {
    let policy = RetryPolicy::new(3);
    let call_count = Cell::new(0);
    let result: Result<u32, String> = policy.execute(
        || {
            call_count.set(call_count.get() + 1);
            Err(format!("failure {}", call_count.get()))
        },
        |_e: &String| true,
        |_ms| {},
    );
    assert_eq!(result, Err("failure 3".to_string()));
    assert_eq!(call_count.get(), 3);
}

#[test]
fn an_error_that_is_not_retryable_ends_the_run() {
    let policy = RetryPolicy::new(5);
    let call_count = Cell::new(0);
    let result: Result<u32, String> = policy.execute(
        || {
            call_count.set(call_count.get() + 1);
            Err("fatal".to_string())
        },
        |e: &String| e != "fatal",
        |_ms| panic!("no pause is due"),
    );
    assert_eq!(result, Err("fatal".to_string()));
    assert_eq!(call_count.get(), 1);
}

#[test]
fn zero_attempts_still_make_one() {
    let policy = RetryPolicy::new(0);
    let call_count = Cell::new(0);
    let result: Result<u32, String> = policy.execute(
        || {
            call_count.set(call_count.get() + 1);
            Err("x".to_string())
        },
        |_e: &String| true,
        |_ms| {},
    );
    assert!(result.is_err());
    assert_eq!(call_count.get(), 1);
    assert_eq!(RetryPolicy::disabled().max_attempts, 1);
}

#[test]
fn default_policy() {
    let policy = RetryPolicy::default();
    assert_eq!(policy.max_attempts, 3);
    assert_eq!(policy.initial_delay_ms, 100);
    assert_eq!(policy.max_delay_ms, 30_000);
    assert_eq!(policy.multiplier_milli, 2000);
    assert!(policy.is_valid());
    assert_eq!(RetryPolicy::new(7).max_attempts, 7);
}

#[test]
fn delays_grow_and_are_capped() {
    let policy = RetryPolicy {
        max_attempts: 50,
        initial_delay_ms: 200,
        max_delay_ms: 10_000,
        multiplier_milli: 1500,
    };
    assert!(policy.is_valid());
    let mut state = policy.start();
    assert_eq!(state, RetryState { attempt: 1, delay_ms: 200 });
    let mut delays = Vec::new();
    while let RetryDecision::RetryAfter(d) = policy.on_failure(&mut state, true) {
        delays.push(d);
    }
    assert_eq!(delays.len(), 49);
    assert_eq!(&delays[..6], &[200, 300, 450, 675, 1012, 1518]);
    assert!(delays.windows(2).all(|w| w[0] <= w[1]));
    assert!(delays.iter().all(|d| *d <= 10_000));
    assert_eq!(*delays.last().unwrap(), 10_000);
    assert_eq!(state.attempt, 50);
    // Exhausted: the state stays where it is.
    assert_eq!(policy.on_failure(&mut state, true), RetryDecision::GiveUp);
    assert_eq!(state.attempt, 50);
}

#[test]
fn grow_rounds_down_and_does_not_overflow() {
    let policy = RetryPolicy {
        max_attempts: 3,
        initial_delay_ms: 1,
        max_delay_ms: u64::MAX,
        multiplier_milli: u32::MAX,
    };
    assert_eq!(policy.grow(0), 0);
    assert_eq!(policy.grow(1), 4_294_967);
    assert_eq!(policy.grow(u64::MAX), u64::MAX);
    let odd = RetryPolicy { max_attempts: 3, initial_delay_ms: 3, max_delay_ms: 100, multiplier_milli: 1333 };
    assert_eq!(odd.grow(3), 3);
    assert_eq!(odd.grow(4), 5);
    assert_eq!(odd.grow(99), 100);
    let invalid = RetryPolicy { max_attempts: 3, initial_delay_ms: 5, max_delay_ms: 4, multiplier_milli: 999 };
    assert!(!invalid.is_valid());
}

#[test]
fn a_failure_that_is_not_retryable_gives_up_at_once() {
    let policy = RetryPolicy::new(3);
    let mut state = policy.start();
    assert_eq!(policy.on_failure(&mut state, false), RetryDecision::GiveUp);
    assert_eq!(state, policy.start());
}
