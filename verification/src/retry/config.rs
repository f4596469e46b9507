//! Retry configuration validated at workflow start.

use vstd::prelude::*;
use crate::constants::{
    RETRY_DEFAULT_BASE_MS, RETRY_DEFAULT_MAX_MS, RETRY_DEFAULT_MULTIPLIER_X100,
    RETRY_MAX_ALLOWED_ATTEMPTS,
};
use crate::error::RuntimeError;
use crate::rcs::types::RetryPolicy;
use crate::text::{append_str, decimal, owned, u64_decimal};

verus! {

/// Runtime retry configuration for a workflow run.
#[derive(Debug, Clone)]
pub struct RetryConfig {
    pub max_attempts: u32,
    pub backoff: BackoffStrategy,
}

/// How long to wait before the next attempt.
#[derive(Debug, Clone)]
pub enum BackoffStrategy {
    Exponential { base_ms: u64, multiplier_x100: u64, max_ms: u64, jitter_ms: u64 },
    Linear { base_ms: u64, increment_ms: u64, max_ms: u64, jitter_ms: u64 },
    Constant { delay_ms: u64, jitter_ms: u64 },
}

/// `a * b`, or `u64::MAX` when the product does not fit.
pub open spec fn sat_mul(a: u64, b: u64) -> u64 {
    if a * b > u64::MAX { u64::MAX } else { (a * b) as u64 }
}

/// `a + b`, or `u64::MAX` when the sum does not fit.
pub open spec fn sat_add(a: u64, b: u64) -> u64 {
    if a + b > u64::MAX { u64::MAX } else { (a + b) as u64 }
}

pub open spec fn min_u64(a: u64, b: u64) -> u64 {
    if a <= b { a } else { b }
}

/// Delay after `k` more growth steps starting from `delay`: each step scales by
/// `multiplier_x100 / 100` (saturating, then truncating), and growth stops at
/// `max_ms` as soon as a step reaches it.
pub open spec fn exp_steps(delay: u64, multiplier_x100: u64, max_ms: u64, k: nat) -> u64
    decreases k,
{
    if k == 0 {
        delay
    } else {
        let next = (sat_mul(delay, multiplier_x100) / 100) as u64;
        if next >= max_ms {
            max_ms
        } else {
            exp_steps(next, multiplier_x100, max_ms, (k - 1) as nat)
        }
    }
}

/// Number of earlier attempts: `attempt - 1`, or 0 for attempt 0.
pub open spec fn prior_attempts(attempt: u32) -> nat {
    if attempt == 0 { 0 } else { (attempt - 1) as nat }
}

/// Error text for an invalid configuration, or `None` when it is valid.
pub open spec fn config_error(c: RetryConfig) -> Option<Seq<char>> {
    if c.max_attempts == 0 {
        Some("retry max_attempts must be at least 1"@)
    } else if c.max_attempts > RETRY_MAX_ALLOWED_ATTEMPTS {
        Some("retry max_attempts exceeds maximum "@ + decimal(RETRY_MAX_ALLOWED_ATTEMPTS as nat))
    } else {
        c.backoff.error()
    }
}

/// Whether `result` reports exactly the outcome `config_error` describes.
pub open spec fn reports(result: Result<(), RuntimeError>, expected: Option<Seq<char>>) -> bool {
    match expected {
        None => result is Ok,
        Some(msg) => match result {
            Err(RuntimeError::InvalidWorkflowDefinition { reason }) => reason@ == msg,
            _ => false,
        },
    }
}

impl BackoffStrategy {
    /// Delay before jitter for the given attempt number (1-based).
    pub open spec fn base_delay(self, attempt: u32) -> u64 {
        match self {
            BackoffStrategy::Exponential { base_ms, multiplier_x100, max_ms, .. } =>
                min_u64(exp_steps(base_ms, multiplier_x100, max_ms, prior_attempts(attempt)), max_ms),
            BackoffStrategy::Linear { base_ms, increment_ms, max_ms, .. } =>
                min_u64(sat_add(base_ms, sat_mul(increment_ms, prior_attempts(attempt) as u64)), max_ms),
            BackoffStrategy::Constant { delay_ms, .. } => delay_ms,
        }
    }

    pub open spec fn jitter(self) -> u64 {
        match self {
            BackoffStrategy::Exponential { jitter_ms, .. } => jitter_ms,
            BackoffStrategy::Linear { jitter_ms, .. } => jitter_ms,
            BackoffStrategy::Constant { jitter_ms, .. } => jitter_ms,
        }
    }

    /// The delay `compute_delay_ms` returns: the base delay, plus `seed % jitter`
    /// (saturating) when both the jitter bound and the seed are non-zero.
    pub open spec fn delay(self, attempt: u32, jitter_seed: u64) -> u64 {
        if self.jitter() == 0 || jitter_seed == 0 {
            self.base_delay(attempt)
        } else {
            sat_add(self.base_delay(attempt), (jitter_seed % self.jitter()) as u64)
        }
    }

    /// Error text for an invalid strategy, or `None` when it is valid.
    pub open spec fn error(self) -> Option<Seq<char>> {
        match self {
            BackoffStrategy::Exponential { base_ms, multiplier_x100, max_ms, .. } =>
                if base_ms == 0 {
                    Some("ExponentialBackoff base_ms must be at least 1"@)
                } else if multiplier_x100 < 100 {
                    Some("ExponentialBackoff multiplier must be at least 1.0"@)
                } else if max_ms <= base_ms {
                    Some("ExponentialBackoff max_ms must exceed base_ms"@)
                } else {
                    None
                },
            BackoffStrategy::Linear { base_ms, max_ms, .. } =>
                if base_ms == 0 {
                    Some("LinearBackoff base_ms must be at least 1"@)
                } else if max_ms < base_ms {
                    Some("LinearBackoff max_ms must be >= base_ms"@)
                } else {
                    None
                },
            BackoffStrategy::Constant { delay_ms, .. } =>
                if delay_ms == 0 {
                    Some("ConstantBackoff delay_ms must be at least 1"@)
                } else {
                    None
                },
        }
    }

    /// Exponential backoff with the runtime defaults and no jitter.
    pub fn default_exponential() -> (s: Self)
        ensures
            s == (BackoffStrategy::Exponential {
                base_ms: RETRY_DEFAULT_BASE_MS,
                multiplier_x100: RETRY_DEFAULT_MULTIPLIER_X100,
                max_ms: RETRY_DEFAULT_MAX_MS,
                jitter_ms: 0,
            }),
    {
        BackoffStrategy::Exponential {
            base_ms: RETRY_DEFAULT_BASE_MS,
            multiplier_x100: RETRY_DEFAULT_MULTIPLIER_X100,
            max_ms: RETRY_DEFAULT_MAX_MS,
            jitter_ms: 0,
        }
    }

    /// Backoff before retrying after failed attempt `attempt` (1-based), with
    /// `jitter_seed % jitter_ms` added when both are non-zero.
    pub fn compute_delay_ms(&self, attempt: u32, jitter_seed: u64) -> (d: u64)
        ensures
            d == self.delay(attempt, jitter_seed),
    {
        let base_delay = match self {
            BackoffStrategy::Exponential { base_ms, multiplier_x100, max_ms, .. } => {
                let steps = attempt.saturating_sub(1);
                let mut delay = *base_ms;
                let mut i: u32 = 0;
                while i < steps
                    invariant
                        i <= steps,
                        exp_steps(*base_ms, *multiplier_x100, *max_ms, steps as nat)
                            == exp_steps(delay, *multiplier_x100, *max_ms, (steps - i) as nat),
                    decreases steps - i,
                {
                    let grown = saturating_mul_u64(delay, *multiplier_x100) / 100;
                    if grown >= *max_ms {
                        delay = *max_ms;
                        i = steps;
                    } else {
                        delay = grown;
                        i = i + 1;
                    }
                }
                if delay <= *max_ms { delay } else { *max_ms }
            },
            BackoffStrategy::Linear { base_ms, increment_ms, max_ms, .. } => {
                let increment = saturating_mul_u64(*increment_ms, attempt.saturating_sub(1) as u64);
                let total = base_ms.saturating_add(increment);
                if total <= *max_ms { total } else { *max_ms }
            },
            BackoffStrategy::Constant { delay_ms, .. } => *delay_ms,
        };
        let jitter_ms = match self {
            BackoffStrategy::Exponential { jitter_ms, .. } => *jitter_ms,
            BackoffStrategy::Linear { jitter_ms, .. } => *jitter_ms,
            BackoffStrategy::Constant { jitter_ms, .. } => *jitter_ms,
        };
        if jitter_ms == 0 || jitter_seed == 0 {
            return base_delay;
        }
        base_delay.saturating_add(jitter_seed % jitter_ms)
    }

    /// Checks the strategy's parameters.
    fn validate(&self) -> (r: Result<(), RuntimeError>)
        ensures
            reports(r, self.error()),
    {
        match self {
            BackoffStrategy::Exponential { base_ms, multiplier_x100, max_ms, .. } => {
                if *base_ms == 0 {
                    return invalid("ExponentialBackoff base_ms must be at least 1");
                }
                if *multiplier_x100 < 100 {
                    return invalid("ExponentialBackoff multiplier must be at least 1.0");
                }
                if *max_ms <= *base_ms {
                    return invalid("ExponentialBackoff max_ms must exceed base_ms");
                }
            },
            BackoffStrategy::Linear { base_ms, max_ms, .. } => {
                if *base_ms == 0 {
                    return invalid("LinearBackoff base_ms must be at least 1");
                }
                if *max_ms < *base_ms {
                    return invalid("LinearBackoff max_ms must be >= base_ms");
                }
            },
            BackoffStrategy::Constant { delay_ms, .. } => {
                if *delay_ms == 0 {
                    return invalid("ConstantBackoff delay_ms must be at least 1");
                }
            },
        }
        Ok(())
    }
}

/// `a * b`, saturating at `u64::MAX`.
fn saturating_mul_u64(a: u64, b: u64) -> (r: u64)
    ensures
        r == sat_mul(a, b),
{
    match a.checked_mul(b) {
        Some(p) => p,
        None => u64::MAX,
    }
}

/// An `InvalidWorkflowDefinition` error with the given reason.
fn invalid(reason: &str) -> (r: Result<(), RuntimeError>)
    ensures
        r matches Err(RuntimeError::InvalidWorkflowDefinition { reason: msg }) && msg@ == reason@,
{
    Err(RuntimeError::InvalidWorkflowDefinition { reason: owned(reason) })
}

impl RetryConfig {
    /// Accepts 1..=`RETRY_MAX_ALLOWED_ATTEMPTS` attempts and a valid backoff strategy.
    pub fn validate(&self) -> (r: Result<(), RuntimeError>)
        ensures
            reports(r, config_error(*self)),
    {
        if self.max_attempts == 0 {
            return invalid("retry max_attempts must be at least 1");
        }
        if self.max_attempts > RETRY_MAX_ALLOWED_ATTEMPTS {
            let mut reason = owned("retry max_attempts exceeds maximum ");
            let n = u64_decimal(RETRY_MAX_ALLOWED_ATTEMPTS as u64);
            append_str(&mut reason, n.as_str());
            return Err(RuntimeError::InvalidWorkflowDefinition { reason });
        }
        self.backoff.validate()
    }

    /// Exponential backoff from an RCS policy, with the default multiplier and no jitter.
    pub fn from_rcs(policy: &RetryPolicy) -> (c: Self)
        ensures
            c.max_attempts == policy.max_attempts,
            c.backoff == (BackoffStrategy::Exponential {
                base_ms: policy.backoff_ms,
                multiplier_x100: RETRY_DEFAULT_MULTIPLIER_X100,
                max_ms: policy.max_backoff_ms,
                jitter_ms: 0,
            }),
    {
        RetryConfig {
            max_attempts: policy.max_attempts,
            backoff: BackoffStrategy::Exponential {
                base_ms: policy.backoff_ms,
                multiplier_x100: RETRY_DEFAULT_MULTIPLIER_X100,
                max_ms: policy.max_backoff_ms,
                jitter_ms: 0,
            },
        }
    }
}


/// The cap of an exponential or linear strategy (none for a constant one).
pub open spec fn cap(s: BackoffStrategy) -> Option<u64> {
    match s {
        BackoffStrategy::Exponential { max_ms, .. } => Some(max_ms),
        BackoffStrategy::Linear { max_ms, .. } => Some(max_ms),
        BackoffStrategy::Constant { .. } => None,
    }
}

/// Exponential and linear backoff never exceed their cap before jitter, and
/// jitter adds less than the jitter bound: every delay is at most the cap when
/// jitter is off and below cap plus jitter bound otherwise.
pub proof fn law_backoff_capped(s: BackoffStrategy, attempt: u32, jitter_seed: u64)
    requires
        cap(s) is Some,
    ensures
        s.base_delay(attempt) <= cap(s)->0,
        s.jitter() == 0 || jitter_seed == 0 ==> s.delay(attempt, jitter_seed) <= cap(s)->0,
        s.jitter() > 0 && jitter_seed > 0 ==> s.delay(attempt, jitter_seed) < cap(s)->0 + s.jitter(),
{
}

/// Jitter configured on a strategy is applied, whichever the strategy: with a
/// non-zero seed and the strategy's own non-zero jitter bound `j`, the delay is
/// the delay before jitter plus `seed % j` (saturating), so it never falls
/// below that delay and exceeds it by less than `j`; with a zero seed or a zero
/// bound the delay is the delay before jitter.
pub proof fn law_jitter_applied(s: BackoffStrategy, attempt: u32, seed: u64)
    ensures
        s matches BackoffStrategy::Exponential { jitter_ms, .. } ==> (jitter_ms > 0 && seed > 0
            ==> s.delay(attempt, seed) == sat_add(s.base_delay(attempt), (seed % jitter_ms) as u64)),
        s matches BackoffStrategy::Linear { jitter_ms, .. } ==> (jitter_ms > 0 && seed > 0
            ==> s.delay(attempt, seed) == sat_add(s.base_delay(attempt), (seed % jitter_ms) as u64)),
        s matches BackoffStrategy::Constant { jitter_ms, .. } ==> (jitter_ms > 0 && seed > 0
            ==> s.delay(attempt, seed) == sat_add(s.base_delay(attempt), (seed % jitter_ms) as u64)),
        s matches BackoffStrategy::Exponential { jitter_ms, .. } ==> (jitter_ms == 0 ==> s.delay(attempt, seed) == s.base_delay(attempt)),
        s matches BackoffStrategy::Linear { jitter_ms, .. } ==> (jitter_ms == 0 ==> s.delay(attempt, seed) == s.base_delay(attempt)),
        s matches BackoffStrategy::Constant { jitter_ms, .. } ==> (jitter_ms == 0 ==> s.delay(attempt, seed) == s.base_delay(attempt)),
        seed == 0 ==> s.delay(attempt, seed) == s.base_delay(attempt),
        s.base_delay(attempt) <= s.delay(attempt, seed),
{
}

proof fn lemma_exp_step_grows(d: u64, m: u64, max_ms: u64)
    requires
        d < max_ms,
        m >= 100,
        max_ms * m <= u64::MAX,
    ensures
        sat_mul(d, m) == d * m,
        d * m / 100 >= d,
{
    assert(d * m <= max_ms * m) by (nonlinear_arith)
        requires
            d < max_ms,
            m >= 100,
    ;
    assert(d * m >= d * 100) by (nonlinear_arith)
        requires
            m >= 100,
    ;
}

proof fn lemma_exp_steps_next(d: u64, m: u64, max_ms: u64, k: nat)
    requires
        d < max_ms,
        m >= 100,
        max_ms * m <= u64::MAX,
    ensures
        exp_steps(d, m, max_ms, k) <= exp_steps(d, m, max_ms, k + 1),
        d <= exp_steps(d, m, max_ms, k) <= max_ms,
    decreases k,
{
    lemma_exp_step_grows(d, m, max_ms);
    let next = (sat_mul(d, m) / 100) as u64;
    if next < max_ms {
        if k > 0 {
            lemma_exp_steps_next(next, m, max_ms, (k - 1) as nat);
        } else {
            assert(exp_steps(next, m, max_ms, 0) == next);
        }
    }
}

proof fn lemma_exp_steps_monotone(d: u64, m: u64, max_ms: u64, k1: nat, k2: nat)
    requires
        d < max_ms,
        m >= 100,
        max_ms * m <= u64::MAX,
        k1 <= k2,
    ensures
        exp_steps(d, m, max_ms, k1) <= exp_steps(d, m, max_ms, k2),
    decreases k2 - k1,
{
    if k1 < k2 {
        lemma_exp_steps_next(d, m, max_ms, k1);
        lemma_exp_steps_monotone(d, m, max_ms, k1 + 1, k2);
    }
}

/// A later attempt never waits less before jitter: linear and constant backoff
/// for any parameters, exponential backoff when it is valid and its cap times
/// the multiplier fits in `u64` (so no growth step saturates).
pub proof fn law_backoff_monotone(s: BackoffStrategy, a1: u32, a2: u32)
    requires
        a1 <= a2,
        s matches BackoffStrategy::Exponential { multiplier_x100, max_ms, .. } ==> s.error() is None
            && max_ms * multiplier_x100 <= u64::MAX,
    ensures
        s.base_delay(a1) <= s.base_delay(a2),
{
    match s {
        BackoffStrategy::Exponential { base_ms, multiplier_x100, max_ms, .. } => {
            lemma_exp_steps_monotone(base_ms, multiplier_x100, max_ms, prior_attempts(a1), prior_attempts(a2));
        },
        BackoffStrategy::Linear { increment_ms, .. } => {
            let n1 = prior_attempts(a1) as u64;
            let n2 = prior_attempts(a2) as u64;
            assert(increment_ms * n1 <= increment_ms * n2) by (nonlinear_arith)
                requires
                    n1 <= n2,
            ;
        },
        BackoffStrategy::Constant { .. } => {},
    }
}

/// One growth step from `d`: scaled by `multiplier_x100 / 100` (saturating,
/// then truncating), or the cap once the scaled delay reaches it.
pub open spec fn grow_once(d: u64, multiplier_x100: u64, max_ms: u64) -> u64 {
    let next = (sat_mul(d, multiplier_x100) / 100) as u64;
    if next >= max_ms { max_ms } else { next }
}

proof fn lemma_exp_steps_succ(d: u64, m: u64, max_ms: u64, k: nat)
    ensures
        exp_steps(d, m, max_ms, k) < max_ms ==> exp_steps(d, m, max_ms, k + 1)
            == grow_once(exp_steps(d, m, max_ms, k), m, max_ms),
        k >= 1 ==> exp_steps(d, m, max_ms, k) <= max_ms,
        k >= 1 && exp_steps(d, m, max_ms, k) == max_ms ==> exp_steps(d, m, max_ms, k + 1) == max_ms,
    decreases k,
{
    let next = (sat_mul(d, m) / 100) as u64;
    if k == 0 {
        assert(exp_steps(next, m, max_ms, 0) == next);
    } else {
        if next < max_ms {
            lemma_exp_steps_succ(next, m, max_ms, (k - 1) as nat);
            if k == 1 {
                assert(exp_steps(next, m, max_ms, 0) == next);
                assert(exp_steps(next, m, max_ms, 1) == grow_once(next, m, max_ms));
            }
        }
    }
}

/// How the delay before jitter evolves from one attempt to the next.
/// Attempt 0 waits as attempt 1, which waits the base delay (capped).
/// Exponential: while below the cap, the next attempt waits the current delay
/// times the multiplier / 100 (saturating, truncating), capped; from the
/// second attempt on, once at the cap it stays there. Linear: while below the
/// cap and without overflow, the next attempt waits the increment more,
/// capped. Constant: every attempt waits the same.
pub proof fn law_backoff_progression(s: BackoffStrategy, a: u32)
    requires
        1 <= a < u32::MAX,
    ensures
        s.base_delay(0) == s.base_delay(1),
        s matches BackoffStrategy::Exponential { base_ms, max_ms, .. } ==> s.base_delay(1) == min_u64(base_ms, max_ms),
        s matches BackoffStrategy::Linear { base_ms, max_ms, .. } ==> s.base_delay(1) == min_u64(base_ms, max_ms),
        s matches BackoffStrategy::Exponential { multiplier_x100, max_ms, .. } ==> (s.base_delay(a) < max_ms
            ==> s.base_delay((a + 1) as u32) == grow_once(s.base_delay(a), multiplier_x100, max_ms)),
        s matches BackoffStrategy::Exponential { max_ms, .. } ==> (a >= 2 && s.base_delay(a) == max_ms
            ==> s.base_delay((a + 1) as u32) == max_ms),
        s matches BackoffStrategy::Linear { base_ms, increment_ms, max_ms, .. } ==> (s.base_delay(a) < max_ms
            && base_ms + increment_ms * a <= u64::MAX
            ==> s.base_delay((a + 1) as u32) == min_u64((s.base_delay(a) + increment_ms) as u64, max_ms)),
        s matches BackoffStrategy::Constant { delay_ms, .. } ==> s.base_delay(a) == delay_ms,
{
    match s {
        BackoffStrategy::Exponential { base_ms, multiplier_x100, max_ms, .. } => {
            lemma_exp_steps_succ(base_ms, multiplier_x100, max_ms, prior_attempts(a));
            assert(prior_attempts((a + 1) as u32) == prior_attempts(a) + 1);
        },
        BackoffStrategy::Linear { base_ms, increment_ms, max_ms, .. } => {
            assert(increment_ms * 0 == 0);
            assert(sat_mul(increment_ms, 0) == 0);
            let n = (a - 1) as int;
            assert(prior_attempts((a + 1) as u32) == n + 1);
            assert(increment_ms * (n + 1) == increment_ms * n + increment_ms) by (nonlinear_arith);
            assert(0 <= increment_ms * n <= increment_ms * a) by (nonlinear_arith)
                requires
                    0 <= n <= a,
            ;
        },
        BackoffStrategy::Constant { .. } => {},
    }
}

/// Which configurations are accepted, in terms of their fields: between 1
/// and `RETRY_MAX_ALLOWED_ATTEMPTS` attempts and a valid strategy, where an
/// exponential strategy needs a base of at least 1 ms, a multiplier of at
/// least 1.0 and a cap above the base, a linear one a base of at least 1 ms
/// and a cap not below it, and a constant one a delay of at least 1 ms. The
/// attempt count is checked before the strategy.
pub proof fn law_config_validity(c: RetryConfig)
    ensures
        config_error(c) is None <==> (1 <= c.max_attempts <= RETRY_MAX_ALLOWED_ATTEMPTS
            && c.backoff.error() is None),
        (c.max_attempts == 0 || c.max_attempts > RETRY_MAX_ALLOWED_ATTEMPTS) ==> config_error(c) is Some,
        c.backoff matches BackoffStrategy::Exponential { base_ms, multiplier_x100, max_ms, .. } ==> (c.backoff.error() is None
            <==> (base_ms >= 1 && multiplier_x100 >= 100 && max_ms > base_ms)),
        c.backoff matches BackoffStrategy::Linear { base_ms, max_ms, .. } ==> (c.backoff.error() is None
            <==> (base_ms >= 1 && max_ms >= base_ms)),
        c.backoff matches BackoffStrategy::Constant { delay_ms, .. } ==> (c.backoff.error() is None
            <==> delay_ms >= 1),
{
}

proof fn lemma_exp_steps_positive(d: u64, m: u64, max_ms: u64, k: nat)
    requires
        d >= 1,
        m >= 100,
        max_ms >= 1,
    ensures
        exp_steps(d, m, max_ms, k) >= 1,
    decreases k,
{
    if k > 0 {
        if d * m <= u64::MAX {
            assert(d * m >= 100) by (nonlinear_arith)
                requires
                    d >= 1,
                    m >= 100,
            ;
        }
        let next = (sat_mul(d, m) / 100) as u64;
        if next < max_ms {
            lemma_exp_steps_positive(next, m, max_ms, (k - 1) as nat);
        }
    }
}

/// A valid strategy never retries without waiting: every attempt's delay is
/// at least 1 ms, and for exponential and linear backoff at most the cap
/// before jitter.
pub proof fn law_valid_backoff_waits(s: BackoffStrategy, attempt: u32, seed: u64)
    requires
        s.error() is None,
    ensures
        s.base_delay(attempt) >= 1,
        s.delay(attempt, seed) >= 1,
{
    match s {
        BackoffStrategy::Exponential { base_ms, multiplier_x100, max_ms, .. } => {
            lemma_exp_steps_positive(base_ms, multiplier_x100, max_ms, prior_attempts(attempt));
        },
        _ => {},
    }
}

} // verus!
