//! The fetch client: what is decided around a request.
//!
//! A fetch is validated, admitted by the rate limiter, attempted under the
//! retry policy, and decoded. The client decides each of these steps; it
//! never touches the network itself. The caller sends the request that the
//! client describes and hands back what came of it.

use crate::decode::{decode_body, decoded_body, failure_of};
use crate::errors::{FetchError, NetworkError, ValidationError, STATUS_OK};
use crate::rate_limit::{Admission, Bucket, SecRateLimiter, NANOS_PER_SECOND, SEC_RATE_LIMIT};
use crate::retry::{lemma_delay_fits, RetryDecision, RetryPolicy, RetryState};
use crate::validation::{
    sec_url_message, sec_url_verdict, user_agent_problem, validate_sec_url, validate_user_agent,
};
use vstd::prelude::*;
use vstd::string::StringExecFns;

verus! {

/// The User-Agent of a client that was given none.
pub const DEFAULT_UA: &'static str =
    "edga_rs/0.1 (+https://www.sec.gov/; contact=example@example.com)";

/// The timeout of one attempt, in milliseconds, of a client that was given
/// none.
pub const DEFAULT_TIMEOUT_MS: u64 = 30_000;

/// The encodings that every request offers to accept.
pub const ACCEPT_ENCODING: &'static str = "gzip, deflate";

/// One HTTPS GET request, built afresh for every attempt.
#[derive(Debug)]
pub struct RequestDescriptor {
    /// The URL to get.
    pub url: String,
    /// The identifying `User-Agent` header.
    pub user_agent: String,
    /// The `Accept` header.
    pub accept: String,
    /// The `Accept-Encoding` header.
    pub accept_encoding: String,
    /// The time that the attempt may take, in milliseconds.
    pub timeout_ms: u64,
}

/// What came of one attempt.
#[derive(Debug)]
pub enum Attempt {
    /// A response arrived in full.
    Response {
        /// The HTTP status code.
        status: u16,
        /// The value of the `Content-Encoding` header, if there is one.
        content_encoding: Option<String>,
        /// The body as it arrived.
        body: Vec<u8>,
    },
    /// The connection or the transport failed; the text says how.
    Failed(String),
    /// The attempt did not finish within its timeout.
    TimedOut,
}

/// The result of one attempt, as the retry policy sees it.
#[derive(Debug)]
pub enum FetchOutcome {
    /// The decoded body of a successful response.
    Success(Vec<u8>),
    /// A failure that another attempt may overcome.
    RetryableFailure(FetchError),
    /// A failure that another attempt would repeat.
    FatalFailure(FetchError),
}

/// What to do after an attempt.
#[derive(Debug)]
pub enum FetchStep {
    /// The fetch is over, with this result.
    Done(Result<Vec<u8>, FetchError>),
    /// Sleep for this many milliseconds, then attempt again.
    Retry(u64),
}

/// The characters of an optional header value.
pub open spec fn optional_text(value: Option<String>) -> Option<Seq<char>> {
    match value {
        Some(s) => Some(s@),
        None => None,
    }
}

/// Whether `outcome` is what an attempt amounts to. A response with status
/// 200 succeeds with its decoded body, or fails for good where the body
/// cannot be decoded. Any other status is the network error that stands for
/// it, retryable for the rate-limit status and server errors. A transport
/// failure and a timeout are retryable.
pub open spec fn is_outcome_of(outcome: FetchOutcome, attempt: Attempt) -> bool {
    match attempt {
        Attempt::Response { status, content_encoding, body } => {
            if status == STATUS_OK {
                match decoded_body(optional_text(content_encoding), body@) {
                    Ok(bytes) => outcome matches FetchOutcome::Success(b) && b@ == bytes,
                    Err(failure) => outcome matches FetchOutcome::FatalFailure(
                        FetchError::Parse(e),
                    ) && failure_of(e) == Some(failure),
                }
            } else if NetworkError::of_status(status).retryable() {
                outcome == FetchOutcome::RetryableFailure(
                    FetchError::Network(NetworkError::of_status(status)),
                )
            } else {
                outcome == FetchOutcome::FatalFailure(
                    FetchError::Network(NetworkError::of_status(status)),
                )
            }
        },
        Attempt::Failed(message) => outcome matches FetchOutcome::RetryableFailure(
            FetchError::Network(NetworkError::General(m)),
        ) && m@ == message@,
        Attempt::TimedOut => outcome == FetchOutcome::RetryableFailure(
            FetchError::Network(NetworkError::Timeout),
        ),
    }
}

/// Classifies what came of one attempt.
pub fn classify(attempt: Attempt) -> (r: FetchOutcome)
    ensures
        is_outcome_of(r, attempt),
{
    match attempt {
        Attempt::Response { status, content_encoding, body } => {
            if status == STATUS_OK {
                let header: Option<&str> = match &content_encoding {
                    Some(s) => Some(s.as_str()),
                    None => None,
                };
                match decode_body(header, body) {
                    Ok(bytes) => FetchOutcome::Success(bytes),
                    Err(e) => FetchOutcome::FatalFailure(FetchError::Parse(e)),
                }
            } else {
                let error = NetworkError::from_status(status);
                if error.is_retryable() {
                    FetchOutcome::RetryableFailure(FetchError::Network(error))
                } else {
                    FetchOutcome::FatalFailure(FetchError::Network(error))
                }
            }
        },
        Attempt::Failed(message) => FetchOutcome::RetryableFailure(
            FetchError::Network(NetworkError::General(message)),
        ),
        Attempt::TimedOut => FetchOutcome::RetryableFailure(
            FetchError::Network(NetworkError::Timeout),
        ),
    }
}

/// The token bucket of a new client: full, at 10 requests per second, with
/// its clock at 0.
pub open spec fn default_bucket() -> Bucket {
    Bucket {
        rate: SEC_RATE_LIMIT as nat,
        interval: NANOS_PER_SECOND as nat,
        level: (SEC_RATE_LIMIT as nat) * (NANOS_PER_SECOND as nat),
        last: 0,
    }
}

/// HTTP client settings with rate limiting and retry logic.
#[derive(Debug)]
pub struct SecClient {
    timeout_ms: u64,
    user_agent: String,
    rate_limiter: SecRateLimiter,
    retry_policy: Option<RetryPolicy>,
}

impl SecClient {
    /// The User-Agent that requests carry.
    pub closed spec fn agent(&self) -> Seq<char> {
        self.user_agent@
    }

    /// The timeout of one attempt, in milliseconds.
    pub closed spec fn attempt_timeout(&self) -> u64 {
        self.timeout_ms
    }

    /// The token bucket, or `None` where requests are not limited.
    pub closed spec fn bucket(&self) -> Option<Bucket> {
        self.rate_limiter@
    }

    /// The retry policy, or `None` where failures are not retried.
    pub closed spec fn policy(&self) -> Option<RetryPolicy> {
        self.retry_policy
    }

    /// Create a new SEC client with default settings: the default
    /// User-Agent, 30 seconds per attempt, 10 requests per second counted
    /// from instant 0 of the caller's clock, and the default retry policy.
    pub fn new() -> (r: SecClient)
        ensures
            r.agent() == DEFAULT_UA@,
            r.attempt_timeout() == DEFAULT_TIMEOUT_MS,
            r.bucket() == Some(default_bucket()),
            r.policy() == Some(RetryPolicy::new_spec(3)),
    {
        SecClient {
            timeout_ms: DEFAULT_TIMEOUT_MS,
            user_agent: String::from_str(DEFAULT_UA),
            rate_limiter: SecRateLimiter::new(0),
            retry_policy: Some(RetryPolicy::new(3)),
        }
    }

    /// Create a new SEC client that identifies itself by an application name
    /// and a contact address, with default settings otherwise.
    pub fn with_contact(app_name: &str, contact: &str) -> (r: SecClient)
        ensures
            r.agent() == app_name@ + " "@ + contact@,
            r.attempt_timeout() == DEFAULT_TIMEOUT_MS,
            r.bucket() == Some(default_bucket()),
            r.policy() == Some(RetryPolicy::new_spec(3)),
    {
        let mut user_agent = String::from_str(app_name);
        user_agent.append(" ");
        user_agent.append(contact);
        SecClient {
            timeout_ms: DEFAULT_TIMEOUT_MS,
            user_agent,
            rate_limiter: SecRateLimiter::new(0),
            retry_policy: Some(RetryPolicy::new(3)),
        }
    }

    /// Create a new SEC client with custom user agent.
    pub fn with_user_agent(user_agent: String) -> (r: SecClient)
        ensures
            r.agent() == user_agent@,
            r.attempt_timeout() == DEFAULT_TIMEOUT_MS,
            r.bucket() == Some(default_bucket()),
            r.policy() == Some(RetryPolicy::new_spec(3)),
    {
        SecClient {
            timeout_ms: DEFAULT_TIMEOUT_MS,
            user_agent,
            rate_limiter: SecRateLimiter::new(0),
            retry_policy: Some(RetryPolicy::new(3)),
        }
    }

    /// Create a new SEC client with custom timeout, in milliseconds.
    pub fn with_timeout(timeout_ms: u64) -> (r: SecClient)
        ensures
            r.agent() == DEFAULT_UA@,
            r.attempt_timeout() == timeout_ms,
            r.bucket() == Some(default_bucket()),
            r.policy() == Some(RetryPolicy::new_spec(3)),
    {
        SecClient {
            timeout_ms,
            user_agent: String::from_str(DEFAULT_UA),
            rate_limiter: SecRateLimiter::new(0),
            retry_policy: Some(RetryPolicy::new(3)),
        }
    }

    /// Builder pattern: set custom user agent.
    pub fn user_agent(self, ua: String) -> (r: SecClient)
        ensures
            r.agent() == ua@,
            r.attempt_timeout() == self.attempt_timeout(),
            r.bucket() == self.bucket(),
            r.policy() == self.policy(),
    {
        SecClient {
            timeout_ms: self.timeout_ms,
            user_agent: ua,
            rate_limiter: self.rate_limiter,
            retry_policy: self.retry_policy,
        }
    }

    /// Builder pattern: set timeout, in milliseconds.
    pub fn timeout(self, timeout_ms: u64) -> (r: SecClient)
        ensures
            r.agent() == self.agent(),
            r.attempt_timeout() == timeout_ms,
            r.bucket() == self.bucket(),
            r.policy() == self.policy(),
    {
        SecClient {
            timeout_ms,
            user_agent: self.user_agent,
            rate_limiter: self.rate_limiter,
            retry_policy: self.retry_policy,
        }
    }

    /// Builder pattern: disable rate limiting.
    pub fn without_rate_limit(self) -> (r: SecClient)
        ensures
            r.agent() == self.agent(),
            r.attempt_timeout() == self.attempt_timeout(),
            r.bucket() is None,
            r.policy() == self.policy(),
    {
        SecClient {
            timeout_ms: self.timeout_ms,
            user_agent: self.user_agent,
            rate_limiter: SecRateLimiter::unlimited(),
            retry_policy: self.retry_policy,
        }
    }

    /// Builder pattern: disable retry logic.
    pub fn without_retry(self) -> (r: SecClient)
        ensures
            r.agent() == self.agent(),
            r.attempt_timeout() == self.attempt_timeout(),
            r.bucket() == self.bucket(),
            r.policy() is None,
    {
        SecClient {
            timeout_ms: self.timeout_ms,
            user_agent: self.user_agent,
            rate_limiter: self.rate_limiter,
            retry_policy: None,
        }
    }

    /// The User-Agent that requests carry.
    pub fn user_agent_str(&self) -> (r: &str)
        ensures
            r@ == self.agent(),
    {
        self.user_agent.as_str()
    }

    /// The timeout of one attempt, in milliseconds.
    pub fn timeout_ms(&self) -> (r: u64)
        ensures
            r == self.attempt_timeout(),
    {
        self.timeout_ms
    }

    /// Whether requests are rate limited.
    pub fn is_rate_limited(&self) -> (r: bool)
        ensures
            r == self.bucket() is Some,
    {
        self.rate_limiter.is_limited()
    }

    /// Whether failures are retried.
    pub fn retries(&self) -> (r: bool)
        ensures
            r == self.policy() is Some,
    {
        self.retry_policy.is_some()
    }

    /// Describes the request for `url`, or refuses it. The URL has to be an
    /// HTTPS URL on a `sec.gov` host, and the client's User-Agent has to name
    /// a contact; the URL is judged first. A refused request is never sent and
    /// takes no token.
    pub fn prepare(&self, url: &str, accept: &str) -> (r: Result<RequestDescriptor, FetchError>)
        ensures
            match r {
                Ok(request) => {
                    &&& sec_url_verdict(url@) is Accepted
                    &&& user_agent_problem(self.agent()) is None
                    &&& request.url@ == url@
                    &&& request.user_agent@ == self.agent()
                    &&& request.accept@ == accept@
                    &&& request.accept_encoding@ == ACCEPT_ENCODING@
                    &&& request.timeout_ms == self.attempt_timeout()
                },
                Err(FetchError::Validation(ValidationError::Invalid(m))) => {
                    if sec_url_verdict(url@) is Accepted {
                        user_agent_problem(self.agent()) == Some(m@)
                    } else {
                        m@ == sec_url_message(sec_url_verdict(url@))
                    }
                },
                Err(_) => false,
            },
    {
        match validate_sec_url(url) {
            Err(e) => {
                return Err(FetchError::Validation(e));
            },
            Ok(()) => {},
        }
        match validate_user_agent(self.user_agent.as_str()) {
            Err(e) => {
                return Err(FetchError::Validation(e));
            },
            Ok(()) => {},
        }
        Ok(
            RequestDescriptor {
                url: String::from_str(url),
                user_agent: self.user_agent.clone(),
                accept: String::from_str(accept),
                accept_encoding: String::from_str(ACCEPT_ENCODING),
                timeout_ms: self.timeout_ms,
            },
        )
    }

    /// One round of waiting for admission at instant `now`, in nanoseconds
    /// since the client was made. See [`SecRateLimiter::poll`].
    pub fn acquire(&mut self, now: u64) -> (r: Admission)
        ensures
            final(self).agent() == old(self).agent(),
            final(self).attempt_timeout() == old(self).attempt_timeout(),
            final(self).policy() == old(self).policy(),
            match old(self).bucket() {
                None => final(self).bucket() is None && r == Admission::Granted,
                Some(b) => {
                    &&& final(self).bucket() == Some(b.attempt(now as nat).0)
                    &&& match r {
                        Admission::Granted => b.attempt(now as nat).1,
                        Admission::Wait(nanos) => {
                            &&& !b.attempt(now as nat).1
                            &&& nanos == b.attempt(now as nat).0.shortfall_nanos()
                            &&& 0 < nanos <= b.interval
                        },
                    }
                },
            },
    {
        self.rate_limiter.poll(now)
    }

    /// The retry state in which the first attempt of a fetch is made.
    pub fn begin(&self) -> (r: RetryState)
        ensures
            r == self.effective_policy().initial_state(),
    {
        match &self.retry_policy {
            Some(p) => p.start(),
            None => RetryPolicy::disabled().start(),
        }
    }

    /// The policy that attempts are made under: the client's own, or one
    /// that allows a single attempt where retrying is disabled.
    pub open spec fn effective_policy(&self) -> RetryPolicy {
        match self.policy() {
            Some(p) => p,
            None => RetryPolicy::new_spec(1),
        }
    }

    /// Decides what follows an attempt. A success and a fatal failure end the
    /// fetch. A retryable failure is followed by another attempt, after the
    /// current delay, as long as the policy has attempts left; when it has
    /// none, the fetch ends with that failure, unchanged.
    pub fn settle(&self, state: &mut RetryState, outcome: FetchOutcome) -> (r: FetchStep)
        ensures
            match outcome {
                FetchOutcome::Success(bytes) => r == FetchStep::Done(Ok(bytes)) && *final(state)
                    == *old(state),
                FetchOutcome::FatalFailure(e) => r == FetchStep::Done(Err(e)) && *final(state)
                    == *old(state),
                FetchOutcome::RetryableFailure(e) => {
                    if self.effective_policy().retries(*old(state), true) {
                        &&& r == FetchStep::Retry(old(state).delay_ms)
                        &&& *final(state) == self.effective_policy().advance(*old(state))
                    } else {
                        &&& r == FetchStep::Done(Err(e))
                        &&& *final(state) == *old(state)
                    }
                },
            },
    {
        match outcome {
            FetchOutcome::Success(bytes) => FetchStep::Done(Ok(bytes)),
            FetchOutcome::FatalFailure(e) => FetchStep::Done(Err(e)),
            FetchOutcome::RetryableFailure(e) => {
                let policy = match &self.retry_policy {
                    Some(p) => *p,
                    None => RetryPolicy::disabled(),
                };
                match policy.on_failure(state, true) {
                    RetryDecision::GiveUp => FetchStep::Done(Err(e)),
                    RetryDecision::RetryAfter(delay) => FetchStep::Retry(delay),
                }
            },
        }
    }

    /// Sends `request` through `transport` until an attempt succeeds, fails
    /// for good, or the policy has no attempt left; `pause` is called with
    /// the delay in milliseconds between attempts: after the `k`-th failure
    /// that is retried, counting from 0, with the `k`-th delay of the
    /// policy's schedule. `pause` has to accept these delays, and no other
    /// is handed to it. At most `max_attempts` attempts are made, and at
    /// least one. The result is that of the last attempt: an error comes
    /// back as it is.
    pub fn send<T, S>(&self, request: &RequestDescriptor, transport: T, pause: S) -> (r: Result<
        Vec<u8>,
        FetchError,
    >) where T: Fn(&RequestDescriptor) -> Attempt, S: Fn(u64)
        requires
            transport.requires((request,)),
            forall|k: nat|
                k + 1 < self.effective_policy().max_attempts ==> pause.requires(
                    (self.effective_policy().delay_at(k) as u64,),
                ),
        ensures
            exists|attempts: Seq<Attempt>, outcome: FetchOutcome|
                is_fetch_run(self.effective_policy(), request, transport, attempts, outcome, r),
    {
        let mut state = self.begin();
        let ghost policy = self.effective_policy();
        let ghost mut attempts: Seq<Attempt> = Seq::empty();
        loop
            invariant
                transport.requires((request,)),
                forall|k: nat|
                    k + 1 < policy.max_attempts ==> pause.requires((policy.delay_at(k) as u64,)),
                policy == self.effective_policy(),
                state.attempt == attempts.len() + 1,
                state.delay_ms == policy.delay_at(attempts.len()),
                state.attempt <= policy.max_attempts || state.attempt == 1,
                forall|i: int|
                    0 <= i < attempts.len() ==> transport.ensures(
                        (request,),
                        #[trigger] attempts[i],
                    ) && is_retryable_attempt(attempts[i]),
            decreases policy.max_attempts - state.attempt,
        {
            let attempt = transport(request);
            let ghost made = attempt;
            let ghost before = attempts;
            let outcome = classify(attempt);
            let ghost classified = outcome;
            match self.settle(&mut state, outcome) {
                FetchStep::Done(result) => {
                    proof {
                        attempts = before.push(made);
                        assert(is_fetch_run(policy, request, transport, attempts, classified, result));
                    }
                    return result;
                },
                FetchStep::Retry(delay) => {
                    proof {
                        attempts = before.push(made);
                        lemma_delay_fits(policy, before.len() + 1);
                        assert(delay == policy.delay_at(before.len()) as u64);
                    }
                    pause(delay);
                },
            }
        }
    }
}

/// Whether an attempt failed in a way that another attempt may overcome: a
/// transport failure, a timeout, the rate-limit status or a server error.
pub open spec fn is_retryable_attempt(attempt: Attempt) -> bool {
    match attempt {
        Attempt::Response { status, .. } => status != STATUS_OK && NetworkError::of_status(
            status,
        ).retryable(),
        Attempt::Failed(_) => true,
        Attempt::TimedOut => true,
    }
}

/// Whether `attempts` is a run of `request` through `transport` under
/// `policy` that ends in `result`. There is at least one attempt, and no
/// more than `max_attempts`. Every attempt but the last failed in a
/// retryable way. The last attempt amounts to `outcome`, which gives
/// `result`; if it failed in a retryable way too, no attempt was left.
pub open spec fn is_fetch_run<T: Fn(&RequestDescriptor) -> Attempt>(
    policy: RetryPolicy,
    request: &RequestDescriptor,
    transport: T,
    attempts: Seq<Attempt>,
    outcome: FetchOutcome,
    result: Result<Vec<u8>, FetchError>,
) -> bool {
    &&& attempts.len() >= 1
    &&& attempts.len() <= policy.max_attempts || attempts.len() == 1
    &&& forall|i: int| 0 <= i < attempts.len() ==> transport.ensures((request,), #[trigger] attempts[i])
    &&& forall|i: int| 0 <= i < attempts.len() - 1 ==> is_retryable_attempt(#[trigger] attempts[i])
    &&& is_outcome_of(outcome, attempts.last())
    &&& match outcome {
        FetchOutcome::Success(bytes) => result == Ok::<Vec<u8>, FetchError>(bytes),
        FetchOutcome::FatalFailure(e) => result == Err::<Vec<u8>, FetchError>(e),
        FetchOutcome::RetryableFailure(e) => result == Err::<Vec<u8>, FetchError>(e)
            && attempts.len() >= policy.max_attempts,
    }
}

} // verus!
