//! Bounded retry of JWKS fetches: the backoff schedule, the overall
//! timeout ceiling, and the retry loop's decisions.

use crate::error::JwtValidationError;
use crate::time::{doubled, TimeSpan, MAX_SPAN_NANOS};
use vstd::arithmetic::power2::{lemma_pow2_unfold, pow2};
use vstd::prelude::*;

verus! {

/// The backoff delay after `k` doublings of `base`, stopping at the
/// largest span.
pub open spec fn backoff(base: nat, k: nat) -> nat
    decreases k,
{
    if k == 0 {
        base
    } else {
        doubled(backoff(base, (k - 1) as nat))
    }
}

/// The wait before attempt number `attempt` (counted from 0): none before
/// the first, `backoff(base, attempt - 1)` before a later one.
pub open spec fn wait_before(base: nat, attempt: nat) -> nat {
    if attempt == 0 {
        0
    } else {
        backoff(base, (attempt - 1) as nat)
    }
}

/// The overall timeout ceiling of `attempts` attempts: each attempt's wait
/// before it, plus one `base` of request time per attempt.
pub open spec fn ceiling_of(base: nat, attempts: nat) -> nat
    decreases attempts,
{
    if attempts == 0 {
        0
    } else {
        ceiling_of(base, (attempts - 1) as nat) + wait_before(base, (attempts - 1) as nat) + base
    }
}

/// The sum of the waits before the first `attempts` attempts.
pub open spec fn total_backoff(base: nat, attempts: nat) -> nat
    decreases attempts,
{
    if attempts == 0 {
        0
    } else {
        total_backoff(base, (attempts - 1) as nat) + wait_before(base, (attempts - 1) as nat)
    }
}

/// The ceiling grows with the number of attempts.
proof fn lemma_ceiling_monotone(base: nat, a: nat, n: nat)
    requires
        a <= n,
    ensures
        ceiling_of(base, a) <= ceiling_of(base, n),
    decreases n - a,
{
    if a < n {
        lemma_ceiling_monotone(base, a, (n - 1) as nat);
    }
}

/// The timeout ceiling of a retry configuration is exactly the backoff the
/// retry loop sleeps between its attempts, plus one base delay of request
/// time per attempt.
pub proof fn law_ceiling_is_backoff_plus_request_time(base: nat, attempts: nat)
    ensures
        ceiling_of(base, attempts) == attempts * base + total_backoff(base, attempts),
    decreases attempts,
{
    if attempts > 0 {
        let m = (attempts - 1) as nat;
        law_ceiling_is_backoff_plus_request_time(base, m);
        assert(m * base + base == attempts * base) by (nonlinear_arith)
            requires
                attempts == m + 1,
        ;
        assert(ceiling_of(base, attempts) == ceiling_of(base, m) + wait_before(base, m) + base);
        assert(total_backoff(base, attempts) == total_backoff(base, m) + wait_before(base, m));
    } else {
        assert(attempts * base == 0) by (nonlinear_arith)
            requires
                attempts == 0,
        ;
    }
}

/// The backoff delay doubles at every step from `base`, stopping only at
/// the largest span: after `k` doublings it is `base * 2^k`, or the
/// largest span where that would pass it.
pub proof fn law_backoff_doubles_until_largest_span(base: nat, k: nat)
    requires
        base <= MAX_SPAN_NANOS,
    ensures
        backoff(base, k) == if base * pow2(k) <= MAX_SPAN_NANOS {
            base * pow2(k)
        } else {
            MAX_SPAN_NANOS as nat
        },
    decreases k,
{
    if k == 0 {
        assert(pow2(0) == 1) by {
            vstd::arithmetic::power::lemma_pow0(2);
        }
        assert(base * 1 == base);
    } else {
        let j = (k - 1) as nat;
        law_backoff_doubles_until_largest_span(base, j);
        lemma_pow2_unfold(k);
        let p = pow2(j);
        assert(base * pow2(k) == 2 * (base * p)) by (nonlinear_arith)
            requires
                pow2(k) == 2 * p,
        ;
    }
}

/// Before attempt `a` (counted from 0, after the first) the retry loop
/// waits `base * 2^(a-1)`, or the largest span where that would pass it.
pub proof fn law_wait_before_attempt(base: nat, a: nat)
    requires
        base <= MAX_SPAN_NANOS,
        a >= 1,
    ensures
        wait_before(base, a) == if base * pow2((a - 1) as nat) <= MAX_SPAN_NANOS {
            base * pow2((a - 1) as nat)
        } else {
            MAX_SPAN_NANOS as nat
        },
{
    law_backoff_doubles_until_largest_span(base, (a - 1) as nat);
}

/// Bounded-retry configuration for JWKS fetches.
#[derive(Clone, Copy, Debug)]
pub struct RetryConfig {
    attempts: usize,
    base_delay: TimeSpan,
}

impl RetryConfig {
    /// Every configured retry makes at least one attempt.
    #[verifier::type_invariant]
    spec fn at_least_one_attempt(self) -> bool {
        self.attempts >= 1
    }

    /// How many attempts a fetch makes.
    pub closed spec fn attempt_limit(&self) -> nat {
        self.attempts as nat
    }

    /// The delay before the second attempt, doubling before each later one.
    pub closed spec fn base(&self) -> nat {
        self.base_delay@
    }

    /// Up to `attempts` attempts (at least one), starting the backoff at
    /// `base_delay`.
    pub fn new(attempts: usize, base_delay: TimeSpan) -> (c: RetryConfig)
        ensures
            c.attempt_limit() == if attempts >= 1 {
                attempts as nat
            } else {
                1
            },
            c.base() == base_delay@,
    {
        RetryConfig { attempts: if attempts >= 1 { attempts } else { 1 }, base_delay }
    }

    /// How many attempts a fetch makes: at least one.
    pub fn attempts(&self) -> (n: usize)
        ensures
            n == self.attempt_limit(),
            n >= 1,
    {
        proof {
            use_type_invariant(self);
        }
        self.attempts
    }

    /// The base delay of the backoff.
    pub fn base_delay(&self) -> (d: TimeSpan)
        ensures
            d@ == self.base(),
    {
        self.base_delay
    }

    /// The overall timeout ceiling, where it does not pass the largest span.
    pub fn checked_ceiling(&self) -> (c: Option<TimeSpan>)
        ensures
            c is Some <==> ceiling_of(self.base(), self.attempt_limit()) <= MAX_SPAN_NANOS,
            c matches Some(t) ==> t@ == ceiling_of(self.base(), self.attempt_limit()),
    {
        let base = self.base_delay;
        let n = self.attempts;
        let mut ceiling = TimeSpan::zero();
        let mut delay = base;
        let mut attempt: usize = 0;
        while attempt < n
            invariant
                attempt <= n,
                n == self.attempt_limit(),
                base@ == self.base(),
                ceiling@ == ceiling_of(base@, attempt as nat),
                ceiling@ <= MAX_SPAN_NANOS,
                delay@ == backoff(base@, if attempt == 0 { 0 } else { (attempt - 1) as nat }),
            decreases n - attempt,
        {
            if attempt > 0 {
                match ceiling.checked_add(delay) {
                    Some(c) => {
                        ceiling = c;
                    },
                    None => {
                        proof {
                            lemma_ceiling_monotone(base@, (attempt + 1) as nat, n as nat);
                        }
                        return None;
                    },
                }
                delay = delay.saturating_double();
            }
            match ceiling.checked_add(base) {
                Some(c) => {
                    ceiling = c;
                },
                None => {
                    proof {
                        lemma_ceiling_monotone(base@, (attempt + 1) as nat, n as nat);
                    }
                    return None;
                },
            }
            attempt = attempt + 1;
        }
        Some(ceiling)
    }

    /// Overall timeout ceiling for the whole retry loop: the sum of
    /// exponential backoff delays between attempts (base_delay, then
    /// doubling), plus one base_delay of request-time headroom per
    /// attempt. Derived purely from the caller's own configuration.
    pub fn ceiling(&self) -> (c: TimeSpan)
        requires
            ceiling_of(self.base(), self.attempt_limit()) <= MAX_SPAN_NANOS,
        ensures
            c@ == ceiling_of(self.base(), self.attempt_limit()),
    {
        match self.checked_ceiling() {
            Some(c) => c,
            None => TimeSpan::zero(),
        }
    }
}

/// What the retry loop does after a failed attempt.
pub enum RetryStep {
    /// Wait this long, then make the next attempt.
    RetryAfter(TimeSpan),
    /// Stop, failing with the last attempt's error.
    GiveUp(JwtValidationError),
}

/// The state of a retry loop: its configuration, the failed attempts so
/// far, and the next backoff delay.
pub struct RetryLoop {
    config: RetryConfig,
    failures: usize,
    delay: TimeSpan,
}

impl RetryLoop {
    #[verifier::type_invariant]
    spec fn schedule(self) -> bool {
        &&& self.failures <= self.config.attempts
        &&& self.failures < self.config.attempts ==> self.delay@ == backoff(
            self.config.base_delay@,
            self.failures as nat,
        )
    }

    /// The loop's configuration.
    pub closed spec fn config(&self) -> RetryConfig {
        self.config
    }

    /// How many attempts have failed so far.
    pub closed spec fn failed(&self) -> nat {
        self.failures as nat
    }

    /// A loop before its first attempt, which is made at once.
    pub fn new(config: RetryConfig) -> (l: RetryLoop)
        ensures
            l.config() == config,
            l.failed() == 0,
    {
        RetryLoop { config, failures: 0, delay: config.base_delay }
    }

    /// Records a failed attempt. Where attempts are left, the next one
    /// comes after the wait that the backoff schedule gives it; otherwise
    /// the loop gives up with this attempt's error.
    pub fn after_failure(&mut self, err: JwtValidationError) -> (step: RetryStep)
        ensures
            final(self).config() == old(self).config(),
            old(self).failed() + 1 < old(self).config().attempt_limit() ==> {
                &&& step matches RetryStep::RetryAfter(wait)
                &&& wait@ == wait_before(old(self).config().base(), old(self).failed() + 1)
                &&& final(self).failed() == old(self).failed() + 1
            },
            old(self).failed() + 1 >= old(self).config().attempt_limit() ==> {
                &&& step == RetryStep::GiveUp(err)
                &&& final(self).failed() == old(self).config().attempt_limit()
            },
    {
        proof {
            use_type_invariant(&*self);
        }
        if self.config.attempts > 0 && self.failures < self.config.attempts - 1 {
            let wait = self.delay;
            *self = RetryLoop {
                config: self.config,
                failures: self.failures + 1,
                delay: wait.saturating_double(),
            };
            RetryStep::RetryAfter(wait)
        } else {
            self.failures = self.config.attempts;
            RetryStep::GiveUp(err)
        }
    }
}

} // verus!
