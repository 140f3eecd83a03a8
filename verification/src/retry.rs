//! Retry with capped exponential backoff.
//!
//! Delays are whole milliseconds and the multiplier is counted in
//! thousandths, so that the schedule is exact integer arithmetic.

use vstd::prelude::*;

verus! {

/// Configuration for retrying operations with exponential backoff.
#[derive(Clone, Copy, Debug, PartialEq, Eq, Structural)]
pub struct RetryPolicy {
    /// Maximum number of attempts before giving up.
    pub max_attempts: u32,
    /// Delay before the first retry, in milliseconds.
    pub initial_delay_ms: u64,
    /// Maximum delay between attempts, in milliseconds.
    pub max_delay_ms: u64,
    /// Factor applied to the delay after each failed attempt, in
    /// thousandths: 2000 doubles the delay.
    pub multiplier_milli: u32,
}

/// Where a retried operation stands: the attempt that is being made, and the
/// delay that a failure of it will be followed by.
#[derive(Clone, Copy, Debug, PartialEq, Eq, Structural)]
pub struct RetryState {
    /// Number of the current attempt, starting at 1.
    pub attempt: u32,
    /// Delay before the next attempt, in milliseconds.
    pub delay_ms: u64,
}

/// What to do after a failed attempt.
#[derive(Clone, Copy, Debug, PartialEq, Eq, Structural)]
pub enum RetryDecision {
    /// Return the error to the caller.
    GiveUp,
    /// Sleep for this many milliseconds, then make the next attempt.
    RetryAfter(u64),
}

impl RetryPolicy {
    /// A policy is well formed when its multiplier is at least 1.0 and its
    /// initial delay does not exceed its maximum delay.
    pub open spec fn wf(self) -> bool {
        &&& self.multiplier_milli >= 1000
        &&& self.initial_delay_ms <= self.max_delay_ms
    }

    /// The policy with the given number of attempts and the default delays:
    /// 100 ms before the first retry, at most 30 s between attempts, and a
    /// delay that doubles.
    pub open spec fn new_spec(max_attempts: u32) -> RetryPolicy {
        RetryPolicy {
            max_attempts,
            initial_delay_ms: 100,
            max_delay_ms: 30_000,
            multiplier_milli: 2000,
        }
    }

    /// The delay that follows `delay`: multiplied, rounded down to a whole
    /// millisecond, and capped at the maximum delay.
    pub open spec fn next_delay(self, delay: nat) -> nat {
        let grown = (delay * self.multiplier_milli) / 1000;
        if grown <= self.max_delay_ms {
            grown as nat
        } else {
            self.max_delay_ms as nat
        }
    }

    /// The delay that follows the `k`-th failed attempt, counting from 0.
    pub open spec fn delay_at(self, k: nat) -> nat
        decreases k,
    {
        if k == 0 {
            self.initial_delay_ms as nat
        } else {
            self.next_delay(self.delay_at((k - 1) as nat))
        }
    }

    /// The state in which the first attempt is made.
    pub open spec fn initial_state(self) -> RetryState {
        RetryState { attempt: 1, delay_ms: self.initial_delay_ms }
    }

    /// Whether an attempt in `state` that failed is followed by another: the
    /// error has to be retryable and attempts have to be left.
    pub open spec fn retries(self, state: RetryState, retryable: bool) -> bool {
        retryable && state.attempt < self.max_attempts
    }

    /// The state of the attempt that follows a failed attempt in `state`.
    pub open spec fn advance(self, state: RetryState) -> RetryState {
        RetryState {
            attempt: (state.attempt + 1) as u32,
            delay_ms: self.next_delay(state.delay_ms as nat) as u64,
        }
    }

    /// What follows a failed attempt in `state`.
    pub open spec fn decide(self, state: RetryState, retryable: bool) -> RetryDecision {
        if self.retries(state, retryable) {
            RetryDecision::RetryAfter(state.delay_ms)
        } else {
            RetryDecision::GiveUp
        }
    }

    /// The state reached from the first attempt after `k` failures that were
    /// each retried.
    pub open spec fn state_after(self, k: nat) -> RetryState
        decreases k,
    {
        if k == 0 {
            self.initial_state()
        } else {
            self.advance(self.state_after((k - 1) as nat))
        }
    }

    /// Creates a retry policy with the given number of attempts and the
    /// default delays.
    pub fn new(max_attempts: u32) -> (r: RetryPolicy)
        ensures
            r == RetryPolicy::new_spec(max_attempts),
            r.wf(),
    {
        RetryPolicy {
            max_attempts,
            initial_delay_ms: 100,
            max_delay_ms: 30_000,
            multiplier_milli: 2000,
        }
    }

    /// A policy that makes one attempt and never retries.
    pub fn disabled() -> (r: RetryPolicy)
        ensures
            r == RetryPolicy::new_spec(1),
            r.wf(),
    {
        RetryPolicy::new(1)
    }

    /// Whether the multiplier is at least 1.0 and the initial delay does not
    /// exceed the maximum delay.
    pub fn is_valid(&self) -> (r: bool)
        ensures
            r == self.wf(),
    {
        self.multiplier_milli >= 1000 && self.initial_delay_ms <= self.max_delay_ms
    }

    /// The state in which the first attempt is made.
    pub fn start(&self) -> (r: RetryState)
        ensures
            r == self.initial_state(),
    {
        RetryState { attempt: 1, delay_ms: self.initial_delay_ms }
    }

    /// The delay that follows `delay_ms`.
    pub fn grow(&self, delay_ms: u64) -> (r: u64)
        ensures
            r == self.next_delay(delay_ms as nat),
            r <= self.max_delay_ms,
    {
        assert((delay_ms as nat) * (self.multiplier_milli as nat) <= 0xFFFF_FFFF_FFFF_FFFF
            * 0xFFFF_FFFF) by (nonlinear_arith)
            requires
                delay_ms <= 0xFFFF_FFFF_FFFF_FFFF,
                self.multiplier_milli <= 0xFFFF_FFFF,
        ;
        let grown: u128 = (delay_ms as u128) * (self.multiplier_milli as u128) / 1000;
        if grown <= self.max_delay_ms as u128 {
            grown as u64
        } else {
            self.max_delay_ms
        }
    }

    /// Records that the attempt in `state` failed. If the error is retryable
    /// and attempts are left, the state moves on to the next attempt and the
    /// result says how long to sleep first; otherwise the state is unchanged
    /// and the result says to give up.
    pub fn on_failure(&self, state: &mut RetryState, retryable: bool) -> (r: RetryDecision)
        ensures
            r == self.decide(*old(state), retryable),
            *final(state) == if self.retries(*old(state), retryable) {
                self.advance(*old(state))
            } else {
                *old(state)
            },
    {
        if retryable && state.attempt < self.max_attempts {
            let delay = state.delay_ms;
            state.attempt = state.attempt + 1;
            state.delay_ms = self.grow(delay);
            RetryDecision::RetryAfter(delay)
        } else {
            RetryDecision::GiveUp
        }
    }

    /// Runs `operation` until it succeeds, fails with an error that
    /// `is_retryable` refuses, or has been attempted `max_attempts` times
    /// (once, if that is zero). After the `k`-th failure that is retried,
    /// counting from 0, `pause` is called with the `k`-th delay of the
    /// schedule, in milliseconds: `pause` has to accept these delays, and no
    /// other is handed to it. The result is that of the last attempt.
    pub fn execute<T, E, Op, Cl, Sl>(&self, operation: Op, is_retryable: Cl, pause: Sl) -> (r:
        Result<T, E>) where Op: Fn() -> Result<T, E>, Cl: Fn(&E) -> bool, Sl: Fn(u64)
        requires
            operation.requires(()),
            forall|e: &E| is_retryable.requires((e,)),
            forall|k: nat| k + 1 < self.max_attempts ==> pause.requires((self.delay_at(k) as u64,)),
        ensures
            exists|attempts: Seq<Result<T, E>>| is_run(*self, operation, is_retryable, attempts, r),
    {
        let mut state = self.start();
        let ghost mut attempts: Seq<Result<T, E>> = Seq::empty();
        loop
            invariant
                operation.requires(()),
                forall|e: &E| is_retryable.requires((e,)),
                forall|k: nat|
                    k + 1 < self.max_attempts ==> pause.requires((self.delay_at(k) as u64,)),
                state.attempt == attempts.len() + 1,
                state.delay_ms == self.delay_at(attempts.len()),
                state.attempt <= self.max_attempts || state.attempt == 1,
                forall|i: int| 0 <= i < attempts.len() ==> is_retried(
                    operation,
                    is_retryable,
                    #[trigger] attempts[i],
                ),
            decreases self.max_attempts - state.attempt,
        {
            let ghost before = attempts;
            match operation() {
                Ok(value) => {
                    proof {
                        attempts = before.push(Ok(value));
                        assert(is_run(*self, operation, is_retryable, attempts, Ok(value)));
                    }
                    return Ok(value);
                },
                Err(error) => {
                    let retryable = is_retryable(&error);
                    match self.on_failure(&mut state, retryable) {
                        RetryDecision::GiveUp => {
                            proof {
                                attempts = before.push(Err(error));
                                assert(is_run(*self, operation, is_retryable, attempts, Err(error)));
                            }
                            return Err(error);
                        },
                        RetryDecision::RetryAfter(delay) => {
                            proof {
                                attempts = before.push(Err(error));
                                assert(is_retried(operation, is_retryable, Err(error)));
                                lemma_delay_fits(*self, before.len() + 1);
                                assert(delay == self.delay_at(before.len()) as u64);
                            }
                            pause(delay);
                        },
                    }
                },
            }
        }
    }
}

/// Whether `outcome` is a failed attempt of `operation` that `is_retryable`
/// accepts.
pub open spec fn is_retried<T, E, Op: Fn() -> Result<T, E>, Cl: Fn(&E) -> bool>(
    operation: Op,
    is_retryable: Cl,
    outcome: Result<T, E>,
) -> bool {
    &&& operation.ensures((), outcome)
    &&& outcome matches Err(e) && is_retryable.ensures((&e,), true)
}

/// Whether `attempts` is a run of `operation` under `policy` that ends in
/// `result`. There is at least one attempt, and no more than `max_attempts`
/// unless that is zero. Every attempt but the last failed with an error that
/// `is_retryable` accepts. The last attempt gave `result`: a success, an
/// error that `is_retryable` refuses, or the error of the attempt after
/// which none is left.
pub open spec fn is_run<T, E, Op: Fn() -> Result<T, E>, Cl: Fn(&E) -> bool>(
    policy: RetryPolicy,
    operation: Op,
    is_retryable: Cl,
    attempts: Seq<Result<T, E>>,
    result: Result<T, E>,
) -> bool {
    &&& attempts.len() >= 1
    &&& attempts.len() <= policy.max_attempts || attempts.len() == 1
    &&& forall|i: int|
        0 <= i < attempts.len() - 1 ==> is_retried(operation, is_retryable, #[trigger] attempts[i])
    &&& attempts.last() == result
    &&& operation.ensures((), result)
    &&& result matches Err(e) ==> is_retryable.ensures((&e,), false) || attempts.len()
        >= policy.max_attempts
}

impl Default for RetryPolicy {
    /// Three attempts, 100 ms before the first retry, at most 30 s between
    /// attempts, and a delay that doubles.
    fn default() -> (r: RetryPolicy)
        ensures
            r == RetryPolicy::new_spec(3),
    {
        RetryPolicy::new(3)
    }
}

/// Every delay of the schedule is a whole number of milliseconds that fits
/// the machine's 64 bits: none exceeds the larger of the initial and the
/// maximum delay.
pub proof fn lemma_delay_fits(policy: RetryPolicy, k: nat)
    ensures
        policy.delay_at(k) <= u64::MAX,
        k > 0 ==> policy.delay_at(k) <= policy.max_delay_ms,
    decreases k,
{
    if k > 0 {
        lemma_delay_fits(policy, (k - 1) as nat);
    }
}

/// The next delay is never below the current one, as long as the current one
/// is within the cap, and never above the cap.
pub proof fn lemma_next_delay(policy: RetryPolicy, delay: nat)
    requires
        policy.wf(),
        delay <= policy.max_delay_ms,
    ensures
        delay <= policy.next_delay(delay) <= policy.max_delay_ms,
{
    assert((delay * policy.multiplier_milli) / 1000 >= delay) by (nonlinear_arith)
        requires
            policy.multiplier_milli >= 1000,
    ;
}

/// Backoff monotonicity and cap. Successive retry delays of a well-formed
/// policy are non-decreasing and never exceed the maximum delay.
pub proof fn lemma_backoff_monotone_and_capped(policy: RetryPolicy, k: nat)
    requires
        policy.wf(),
    ensures
        policy.delay_at(k) <= policy.delay_at(k + 1),
        policy.delay_at(k + 1) <= policy.max_delay_ms,
        policy.delay_at(k) <= policy.max_delay_ms,
    decreases k,
{
    if k > 0 {
        lemma_backoff_monotone_and_capped(policy, (k - 1) as nat);
    }
    lemma_next_delay(policy, policy.delay_at(k));
}

/// Bounded attempts. After `k` retried failures the attempt in progress is
/// attempt `k + 1` and its delay is the `k`-th of the schedule, as long as
/// that many attempts are allowed; and in a state that has reached
/// `max_attempts` no failure is retried. So a policy that allows at least one
/// attempt never makes more than `max_attempts`.
pub proof fn lemma_attempts_bounded(policy: RetryPolicy, k: nat, retryable: bool)
    requires
        policy.wf(),
        policy.max_attempts >= 1,
        k < policy.max_attempts,
    ensures
        policy.state_after(k).attempt == k + 1,
        policy.state_after(k).delay_ms == policy.delay_at(k),
        policy.state_after(k).attempt <= policy.max_attempts,
        k + 1 == policy.max_attempts ==> policy.decide(policy.state_after(k), retryable)
            == RetryDecision::GiveUp,
        k + 1 < policy.max_attempts && retryable ==> policy.decide(
            policy.state_after(k),
            retryable,
        ) == RetryDecision::RetryAfter(policy.delay_at(k) as u64),
        !retryable ==> policy.decide(policy.state_after(k), retryable) == RetryDecision::GiveUp,
    decreases k,
{
    if k > 0 {
        lemma_attempts_bounded(policy, (k - 1) as nat, retryable);
        lemma_backoff_monotone_and_capped(policy, (k - 1) as nat);
    }
    lemma_backoff_monotone_and_capped(policy, k);
}

} // verus!
