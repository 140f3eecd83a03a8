//! Token-bucket admission control.
//!
//! The bucket is kept in exact integer arithmetic. Time is a count of
//! nanoseconds on a clock that the caller reads; the level of the bucket is
//! counted in units of `1 / interval` of a token, so that the refill of any
//! elapsed time is a whole number of units.

use vstd::prelude::*;

verus! {

/// The mathematical state of a token bucket.
pub struct Bucket {
    /// Tokens added per interval; also the capacity in tokens.
    pub rate: nat,
    /// Length of the interval in nanoseconds.
    pub interval: nat,
    /// Tokens held, in units of `1 / interval` of a token.
    pub level: nat,
    /// The instant of the last refill.
    pub last: nat,
}

impl Bucket {
    /// The capacity, in units of `1 / interval` of a token.
    pub open spec fn capacity(self) -> nat {
        self.rate * self.interval
    }

    /// A bucket is well formed when its rate and interval are positive and
    /// its level does not exceed its capacity.
    pub open spec fn wf(self) -> bool {
        &&& self.rate > 0
        &&& self.interval > 0
        &&& self.level <= self.capacity()
    }

    /// The bucket after the tokens of the time elapsed up to `now` have been
    /// added, capped at the capacity. An instant in the past changes nothing.
    pub open spec fn refill(self, now: nat) -> Bucket {
        if now <= self.last {
            self
        } else {
            let raised = self.level + ((now - self.last) * self.rate) as nat;
            Bucket {
                level: if raised <= self.capacity() {
                    raised
                } else {
                    self.capacity()
                },
                last: now,
                ..self
            }
        }
    }

    /// Whether the bucket holds at least one whole token.
    pub open spec fn has_token(self) -> bool {
        self.level >= self.interval
    }

    /// The bucket after one token has been taken.
    pub open spec fn take(self) -> Bucket
        recommends
            self.has_token(),
    {
        Bucket { level: (self.level - self.interval) as nat, ..self }
    }

    /// One acquisition attempt at instant `now`: the bucket afterwards, and
    /// whether a token was granted.
    pub open spec fn attempt(self, now: nat) -> (Bucket, bool) {
        let filled = self.refill(now);
        if filled.has_token() {
            (filled.take(), true)
        } else {
            (filled, false)
        }
    }

    /// For a bucket without a whole token, the least number of nanoseconds
    /// after which the missing part of a token has accrued.
    pub open spec fn shortfall_nanos(self) -> nat
        recommends
            !self.has_token(),
            self.rate > 0,
    {
        ((self.interval - self.level + self.rate - 1) / (self.rate as int)) as nat
    }

    /// The bucket after acquisition attempts at each instant of `times`, in
    /// order.
    pub open spec fn after(self, times: Seq<nat>) -> Bucket
        decreases times.len(),
    {
        if times.len() == 0 {
            self
        } else {
            self.attempt(times[0]).0.after(times.drop_first())
        }
    }

    /// The number of tokens granted by acquisition attempts at each instant
    /// of `times`, in order.
    pub open spec fn granted(self, times: Seq<nat>) -> nat
        decreases times.len(),
    {
        if times.len() == 0 {
            0
        } else {
            let (next, ok) = self.attempt(times[0]);
            (if ok {
                1nat
            } else {
                0nat
            }) + next.granted(times.drop_first())
        }
    }
}

/// What an acquisition attempt tells the caller.
#[derive(Clone, Copy, Debug, PartialEq, Eq, Structural)]
pub enum Admission {
    /// A token was taken: the request may go out.
    Granted,
    /// No token is available; one will be after this many nanoseconds.
    Wait(u64),
}

/// Why a rate limiter could not be built.
#[derive(Clone, Copy, Debug, PartialEq, Eq, Structural)]
pub enum RateLimitError {
    /// The number of tokens per interval is zero.
    ZeroRate,
    /// The interval is empty.
    ZeroInterval,
}

/// Token bucket rate limiter.
///
/// Tokens are added to the bucket at a fixed rate, and each request consumes
/// one token. The bucket starts full.
#[derive(Debug)]
pub struct RateLimiter {
    tokens_per_interval: u32,
    interval_nanos: u64,
    level: u128,
    last_update: u64,
}

impl View for RateLimiter {
    type V = Bucket;

    closed spec fn view(&self) -> Bucket {
        Bucket {
            rate: self.tokens_per_interval as nat,
            interval: self.interval_nanos as nat,
            level: self.level as nat,
            last: self.last_update as nat,
        }
    }
}

/// A refill never takes the level of a well-formed bucket above capacity, and
/// the level rises by no more than the rate times the elapsed time.
pub proof fn lemma_refill(b: Bucket, now: nat)
    requires
        b.wf(),
    ensures
        b.refill(now).wf(),
        b.refill(now).rate == b.rate,
        b.refill(now).interval == b.interval,
        b.refill(now).last >= b.last,
        b.refill(now).last >= now,
        b.refill(now).level >= b.level,
        b.refill(now).level <= b.level + b.rate * (b.refill(now).last - b.last),
{
    if now > b.last {
        assert((now - b.last) * b.rate == b.rate * (now - b.last)) by (nonlinear_arith);
        assert((now - b.last) * b.rate >= 0) by (nonlinear_arith)
            requires
                now > b.last,
        ;
    } else {
        assert(b.rate * (b.last - b.last) == 0) by (nonlinear_arith);
    }
}

/// An acquisition attempt keeps a bucket well formed, never moves its clock
/// back, and accounts for every unit: what was granted plus what is left is
/// no more than what was there plus what accrued.
pub proof fn lemma_attempt(b: Bucket, now: nat)
    requires
        b.wf(),
    ensures
        b.attempt(now).0.wf(),
        b.attempt(now).0.rate == b.rate,
        b.attempt(now).0.interval == b.interval,
        b.attempt(now).0.last >= b.last,
        b.attempt(now).0.last >= now,
        b.attempt(now).1 ==> b.attempt(now).0.level + b.interval <= b.level + b.rate * (
            b.attempt(now).0.last - b.last),
        !b.attempt(now).1 ==> b.attempt(now).0.level <= b.level + b.rate * (
            b.attempt(now).0.last - b.last),
{
    lemma_refill(b, now);
}

/// Token-bucket conservation. Over any sequence of acquisition attempts on a
/// well-formed bucket, the tokens granted never exceed the tokens held at the
/// start plus the rate times the time elapsed on the bucket's clock; so they
/// never exceed the capacity plus the rate times the elapsed time. Both sides
/// are in units of `1 / interval` of a token.
pub proof fn lemma_conservation(b: Bucket, times: Seq<nat>)
    requires
        b.wf(),
    ensures
        b.after(times).wf(),
        b.after(times).rate == b.rate,
        b.after(times).interval == b.interval,
        b.after(times).last >= b.last,
        b.granted(times) * b.interval + b.after(times).level <= b.level + b.rate * (
            b.after(times).last - b.last),
        b.granted(times) * b.interval <= b.capacity() + b.rate * (b.after(times).last - b.last),
    decreases times.len(),
{
    if times.len() == 0 {
        assert(b.rate * (b.last - b.last) == 0) by (nonlinear_arith);
        assert(0 * b.interval == 0) by (nonlinear_arith);
    } else {
        let (next, ok) = b.attempt(times[0]);
        let rest = times.drop_first();
        lemma_attempt(b, times[0]);
        lemma_conservation(next, rest);
        let end = next.after(rest);
        let g = next.granted(rest);
        assert(b.after(times) == end);
        assert(b.rate * (next.last - b.last) + b.rate * (end.last - next.last) == b.rate * (
            end.last - b.last)) by (nonlinear_arith);
        if ok {
            assert(b.granted(times) == 1 + g);
            assert((1 + g) * b.interval == b.interval + g * b.interval) by (nonlinear_arith);
        } else {
            assert(b.granted(times) == g);
        }
    }
}

/// Eventual admission. After a refused attempt, one more attempt made once
/// the shortfall has elapsed is granted, provided nobody else took from the
/// bucket meanwhile.
pub proof fn lemma_wait_suffices(b: Bucket, later: nat)
    requires
        b.wf(),
        !b.has_token(),
        later >= b.last + b.shortfall_nanos(),
    ensures
        b.attempt(later).1,
{
    let need = b.interval - b.level;
    let w = b.shortfall_nanos();
    assert(w * b.rate >= need) by (nonlinear_arith)
        requires
            b.rate > 0,
            need > 0,
            w == (need + b.rate - 1) / (b.rate as int),
    ;
    assert((later - b.last) * b.rate >= w * b.rate) by (nonlinear_arith)
        requires
            later - b.last >= w,
            b.rate > 0,
    ;
    assert(b.capacity() >= b.interval) by (nonlinear_arith)
        requires
            b.capacity() == b.rate * b.interval,
            b.rate > 0,
    ;
    assert(w > 0) by (nonlinear_arith)
        requires
            b.rate > 0,
            need > 0,
            w == (need + b.rate - 1) / (b.rate as int),
    ;
}

impl RateLimiter {
    #[verifier::type_invariant]
    spec fn inv(self) -> bool {
        self@.wf()
    }

    /// Creates a full bucket of `tokens_per_interval` tokens that refills at
    /// `tokens_per_interval` tokens every `interval_nanos` nanoseconds, with
    /// its clock at `now`. A rate or an interval of zero is refused.
    pub fn new(tokens_per_interval: u32, interval_nanos: u64, now: u64) -> (r: Result<
        RateLimiter,
        RateLimitError,
    >)
        ensures
            match r {
                Ok(l) => tokens_per_interval > 0 && interval_nanos > 0 && l@ == (Bucket {
                    rate: tokens_per_interval as nat,
                    interval: interval_nanos as nat,
                    level: (tokens_per_interval as nat) * (interval_nanos as nat),
                    last: now as nat,
                }) && l@.wf(),
                Err(RateLimitError::ZeroRate) => tokens_per_interval == 0,
                Err(RateLimitError::ZeroInterval) => tokens_per_interval > 0 && interval_nanos
                    == 0,
            },
    {
        if tokens_per_interval == 0 {
            return Err(RateLimitError::ZeroRate);
        }
        if interval_nanos == 0 {
            return Err(RateLimitError::ZeroInterval);
        }
        assert((tokens_per_interval as nat) * (interval_nanos as nat) <= 0xFFFF_FFFF
            * 0xFFFF_FFFF_FFFF_FFFF) by (nonlinear_arith)
            requires
                tokens_per_interval <= 0xFFFF_FFFF,
                interval_nanos <= 0xFFFF_FFFF_FFFF_FFFF,
        ;
        let level: u128 = (tokens_per_interval as u128) * (interval_nanos as u128);
        Ok(RateLimiter { tokens_per_interval, interval_nanos, level, last_update: now })
    }

    /// Adds the tokens accrued up to `now`.
    fn refill(&mut self, now: u64)
        ensures
            final(self)@ == old(self)@.refill(now as nat),
    {
        proof {
            use_type_invariant(&*self);
            lemma_refill(self@, now as nat);
        }
        if now > self.last_update {
            let elapsed: u64 = now - self.last_update;
            assert((elapsed as nat) * (self.tokens_per_interval as nat) <= 0xFFFF_FFFF_FFFF_FFFF
                * 0xFFFF_FFFF) by (nonlinear_arith)
                requires
                    elapsed <= 0xFFFF_FFFF_FFFF_FFFF,
                    self.tokens_per_interval <= 0xFFFF_FFFF,
            ;
            assert((self.tokens_per_interval as nat) * (self.interval_nanos as nat) <= 0xFFFF_FFFF
                * 0xFFFF_FFFF_FFFF_FFFF) by (nonlinear_arith)
                requires
                    self.tokens_per_interval <= 0xFFFF_FFFF,
                    self.interval_nanos <= 0xFFFF_FFFF_FFFF_FFFF,
            ;
            let capacity: u128 = (self.tokens_per_interval as u128) * (self.interval_nanos as u128);
            let raised: u128 = self.level + (elapsed as u128) * (self.tokens_per_interval as u128);
            self.level = if raised <= capacity {
                raised
            } else {
                capacity
            };
            self.last_update = now;
        }
    }

    /// Tries to take a token at instant `now`, without waiting: `true` if a
    /// token was taken, `false` if none is available.
    pub fn try_acquire(&mut self, now: u64) -> (r: bool)
        ensures
            (final(self)@, r) == old(self)@.attempt(now as nat),
            final(self)@.wf(),
    {
        proof {
            use_type_invariant(&*self);
            lemma_attempt(self@, now as nat);
        }
        self.refill(now);
        if self.level >= self.interval_nanos as u128 {
            self.level = self.level - self.interval_nanos as u128;
            true
        } else {
            false
        }
    }

    /// One round of waiting for a token at instant `now`: takes a token if
    /// one is available, and otherwise says how long to sleep before the
    /// next round.
    pub fn poll(&mut self, now: u64) -> (r: Admission)
        ensures
            final(self)@ == old(self)@.attempt(now as nat).0,
            final(self)@.wf(),
            match r {
                Admission::Granted => old(self)@.attempt(now as nat).1,
                Admission::Wait(nanos) => {
                    &&& !old(self)@.attempt(now as nat).1
                    &&& nanos == final(self)@.shortfall_nanos()
                    &&& 0 < nanos <= final(self)@.interval
                },
            },
    {
        proof {
            use_type_invariant(&*self);
            lemma_attempt(self@, now as nat);
        }
        self.refill(now);
        if self.level >= self.interval_nanos as u128 {
            self.level = self.level - self.interval_nanos as u128;
            Admission::Granted
        } else {
            let need: u128 = self.interval_nanos as u128 - self.level;
            let rate: u128 = self.tokens_per_interval as u128;
            let nanos: u128 = (need + rate - 1) / rate;
            assert(0 < nanos <= need) by (nonlinear_arith)
                requires
                    rate > 0,
                    need > 0,
                    nanos == (need + rate - 1) / (rate as int),
            ;
            Admission::Wait(nanos as u64)
        }
    }

    /// The number of whole tokens in the bucket as of the last refill.
    pub fn available(&self) -> (r: u32)
        ensures
            r as nat == self@.level / self@.interval,
    {
        proof {
            use_type_invariant(self);
            let b = self@;
            assert(b.level / b.interval <= b.rate) by (nonlinear_arith)
                requires
                    b.level <= b.rate * b.interval,
                    b.interval > 0,
            ;
        }
        (self.level / (self.interval_nanos as u128)) as u32
    }
}

/// Requests per second that the SEC allows a client.
pub const SEC_RATE_LIMIT: u32 = 10;

/// Nanoseconds in one second.
pub const NANOS_PER_SECOND: u64 = 1_000_000_000;

/// Rate limiter for SEC requests: a token bucket counted per second, or no
/// limit at all.
#[derive(Debug)]
pub struct SecRateLimiter {
    limiter: Option<RateLimiter>,
}

impl View for SecRateLimiter {
    type V = Option<Bucket>;

    closed spec fn view(&self) -> Option<Bucket> {
        match self.limiter {
            Some(l) => Some(l@),
            None => None,
        }
    }
}

impl SecRateLimiter {
    /// A limiter at the SEC's rate of 10 requests per second, with its clock
    /// at `now`.
    pub fn new(now: u64) -> (r: SecRateLimiter)
        ensures
            r@ == Some(
                Bucket {
                    rate: SEC_RATE_LIMIT as nat,
                    interval: NANOS_PER_SECOND as nat,
                    level: (SEC_RATE_LIMIT as nat) * (NANOS_PER_SECOND as nat),
                    last: now as nat,
                },
            ),
    {
        SecRateLimiter::with_rate(SEC_RATE_LIMIT, now)
    }

    /// A limiter at `requests_per_second`, which must not be zero, with its
    /// clock at `now`. A caller that passes zero all the same is held to one
    /// request per second.
    pub fn with_rate(requests_per_second: u32, now: u64) -> (r: SecRateLimiter)
        requires
            requests_per_second > 0,
        ensures
            r@ == Some(
                Bucket {
                    rate: requests_per_second as nat,
                    interval: NANOS_PER_SECOND as nat,
                    level: (requests_per_second as nat) * (NANOS_PER_SECOND as nat),
                    last: now as nat,
                },
            ),
    {
        match RateLimiter::new(requests_per_second, NANOS_PER_SECOND, now) {
            Ok(l) => SecRateLimiter { limiter: Some(l) },
            Err(_) => SecRateLimiter {
                limiter: Some(
                    RateLimiter {
                        tokens_per_interval: 1,
                        interval_nanos: NANOS_PER_SECOND,
                        level: NANOS_PER_SECOND as u128,
                        last_update: now,
                    },
                ),
            },
        }
    }

    /// A limiter that admits every request at once.
    pub fn unlimited() -> (r: SecRateLimiter)
        ensures
            r@ is None,
    {
        SecRateLimiter { limiter: None }
    }

    /// Whether requests are limited at all.
    pub fn is_limited(&self) -> (r: bool)
        ensures
            r == self@ is Some,
    {
        self.limiter.is_some()
    }

    /// One round of waiting at instant `now`. Without a limit the request is
    /// admitted and nothing changes; with one, this is [`RateLimiter::poll`].
    pub fn poll(&mut self, now: u64) -> (r: Admission)
        ensures
            match old(self)@ {
                None => final(self)@ is None && r == Admission::Granted,
                Some(b) => {
                    &&& final(self)@ == Some(b.attempt(now as nat).0)
                    &&& match r {
                        Admission::Granted => b.attempt(now as nat).1,
                        Admission::Wait(nanos) => {
                            &&& !b.attempt(now as nat).1
                            &&& nanos == b.attempt(now as nat).0.shortfall_nanos()
                            &&& 0 < nanos <= b.interval
                        },
                    }
                },
            },
    {
        match &mut self.limiter {
            Some(l) => l.poll(now),
            None => Admission::Granted,
        }
    }

    /// Whether a request may go out at instant `now`; if so, it is counted.
    pub fn check(&mut self, now: u64) -> (r: bool)
        ensures
            match old(self)@ {
                None => final(self)@ is None && r,
                Some(b) => (final(self)@, r) == (Some(b.attempt(now as nat).0), b.attempt(
                    now as nat,
                ).1),
            },
    {
        match &mut self.limiter {
            Some(l) => l.try_acquire(now),
            None => true,
        }
    }
}

} // verus!
