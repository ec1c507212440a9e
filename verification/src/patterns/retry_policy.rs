//! Retry policies: how many times an operation is retried and how long to
//! wait between attempts.  Delays are milliseconds.
//!
//! An operation is attempted once and then retried up to `max_retries`
//! times; after failed attempt `k` (0-based) that is not the last, the
//! caller waits `backoff.delay_for(k)`.

use vstd::prelude::*;

verus! {

/// Backoff strategy between retries (milliseconds).
#[derive(Debug, Clone, Copy, PartialEq, Eq, Structural)]
pub enum BackoffStrategy {
    /// Fixed interval between retries.
    Fixed(u64),
    /// Exponential backoff: `base * 2^attempt`, capped at `max`.
    Exponential { base: u64, max: u64 },
    /// Linear backoff: `base * (attempt + 1)`, capped at `max`.
    Linear { base: u64, max: u64 },
    /// No delay between retries.
    NoBackoff,
}

/// `2^n`.
pub open spec fn pow2(n: nat) -> nat
    decreases n,
{
    if n == 0 { 1 } else { 2 * pow2((n - 1) as nat) }
}

/// The smaller of two values.
pub open spec fn min_of(a: int, b: int) -> int {
    if a <= b { a } else { b }
}

/// The delay after failed attempt `attempt` (0-based).
pub open spec fn delay_spec(b: BackoffStrategy, attempt: nat) -> int {
    match b {
        BackoffStrategy::Fixed(d) => d as int,
        BackoffStrategy::Exponential { base, max } => min_of(base * pow2(attempt), max as int),
        BackoffStrategy::Linear { base, max } => min_of(base * (attempt + 1), max as int),
        BackoffStrategy::NoBackoff => 0,
    }
}

impl Default for BackoffStrategy {
    /// Exponential from 100 ms, capped at 5 s.
    fn default() -> (b: Self)
        ensures
            b == (BackoffStrategy::Exponential { base: 100, max: 5_000 }),
    {
        BackoffStrategy::Exponential { base: 100, max: 5_000 }
    }
}

proof fn lemma_pow2_step(n: nat)
    ensures
        pow2(n + 1) == 2 * pow2(n),
        pow2(n) >= 1,
    decreases n,
{
    if n > 0 {
        lemma_pow2_step((n - 1) as nat);
    }
}

impl BackoffStrategy {
    /// The delay after failed attempt `attempt` (0-based), milliseconds:
    /// capped strategies never wait longer than their cap, whatever the
    /// attempt.
    pub fn delay_for(&self, attempt: usize) -> (d: u64)
        ensures
            d == delay_spec(*self, attempt as nat),
    {
        match self {
            BackoffStrategy::Fixed(d) => *d,
            BackoffStrategy::Exponential { base, max } => {
                let b: u128 = *base as u128;
                let m: u128 = *max as u128;
                let mut d: u128 = b;
                let mut k: usize = 0;
                assert(pow2(0) == 1);
                while k < attempt && d < m
                    invariant
                        0 <= k <= attempt,
                        b == *base,
                        m == *max,
                        d == b * pow2(k as nat),
                    decreases attempt - k,
                {
                    proof {
                        lemma_pow2_step(k as nat);
                        assert(b * pow2((k + 1) as nat) == 2 * (b * pow2(k as nat))) by (nonlinear_arith)
                            requires
                                pow2((k + 1) as nat) == 2 * pow2(k as nat),
                        ;
                    }
                    d = d * 2;
                    k = k + 1;
                }
                if d < m {
                    proof {
                        assert(k == attempt);
                    }
                    d as u64
                } else {
                    proof {
                        lemma_pow2_monotone(k as nat, attempt as nat);
                        assert(b * pow2(k as nat) <= b * pow2(attempt as nat)) by (nonlinear_arith)
                            requires
                                pow2(k as nat) <= pow2(attempt as nat),
                                b >= 0,
                        ;
                    }
                    *max
                }
            },
            BackoffStrategy::Linear { base, max } => {
                let n: u128 = attempt as u128 + 1;
                let b: u128 = *base as u128;
                assert(b * n <= 0xffff_ffff_ffff_ffff * 0x1_0000_0000_0000_0000) by (nonlinear_arith)
                    requires
                        b <= 0xffff_ffff_ffff_ffff,
                        n <= 0x1_0000_0000_0000_0000,
                ;
                let delay = b * n;
                if delay < *max as u128 {
                    delay as u64
                } else {
                    *max
                }
            },
            BackoffStrategy::NoBackoff => 0,
        }
    }
}

proof fn lemma_pow2_monotone(a: nat, b: nat)
    requires
        a <= b,
    ensures
        pow2(a) <= pow2(b),
    decreases b - a,
{
    if a < b {
        lemma_pow2_step(a);
        lemma_pow2_monotone(a + 1, b);
    }
}

/// Configuration for retry behaviour.
#[derive(Debug, Clone, Copy)]
pub struct RetryConfig {
    /// Maximum number of retries after the first attempt.
    pub max_retries: usize,
    /// Backoff strategy between retries.
    pub backoff: BackoffStrategy,
}

impl Default for RetryConfig {
    /// Three retries with the default exponential backoff.
    fn default() -> (c: Self)
        ensures
            c.max_retries == 3,
            c.backoff == (BackoffStrategy::Exponential { base: 100, max: 5_000 }),
    {
        RetryConfig { max_retries: 3, backoff: BackoffStrategy::default() }
    }
}

impl RetryConfig {
    /// No retries, default backoff.
    pub fn no_retries() -> (c: Self)
        ensures
            c.max_retries == 0,
            c.backoff == (BackoffStrategy::Exponential { base: 100, max: 5_000 }),
    {
        RetryConfig { max_retries: 0, ..Default::default() }
    }

    /// Three retries with a fixed interval (milliseconds).
    pub fn with_fixed_backoff(interval: u64) -> (c: Self)
        ensures
            c.max_retries == 3,
            c.backoff == BackoffStrategy::Fixed(interval),
    {
        RetryConfig { backoff: BackoffStrategy::Fixed(interval), ..Default::default() }
    }

    /// Three retries with exponential backoff from `base`, capped at `max`.
    pub fn with_exponential_backoff(base: u64, max: u64) -> (c: Self)
        ensures
            c.max_retries == 3,
            c.backoff == (BackoffStrategy::Exponential { base, max }),
    {
        RetryConfig { backoff: BackoffStrategy::Exponential { base, max }, ..Default::default() }
    }
}

/// What to do after failed attempt `attempt` (0-based) when `retries`
/// retries are allowed: wait the given delay and retry, or give up.
pub open spec fn after_failure_spec(retries: usize, b: BackoffStrategy, attempt: usize) -> Option<int> {
    if attempt < retries {
        Some(delay_spec(b, attempt as nat))
    } else {
        None
    }
}

/// Synchronous retry policy.
pub struct RetryPolicy {
    pub retries: usize,
    pub backoff: BackoffStrategy,
}

impl RetryPolicy {
    /// `retries` retries without delay.
    pub fn new(retries: usize) -> (p: Self)
        ensures
            p.retries == retries,
            p.backoff == BackoffStrategy::NoBackoff,
    {
        RetryPolicy { retries, backoff: BackoffStrategy::NoBackoff }
    }

    /// `retries` retries with exponential backoff from `base`, capped at `max`.
    pub fn with_exponential_backoff(retries: usize, base: u64, max: u64) -> (p: Self)
        ensures
            p.retries == retries,
            p.backoff == (BackoffStrategy::Exponential { base, max }),
    {
        RetryPolicy { retries, backoff: BackoffStrategy::Exponential { base, max } }
    }

    /// After failed attempt `attempt` (0-based): `Some(delay)` to wait and
    /// retry, `None` to give up and report the error.
    pub fn after_failure(&self, attempt: usize) -> (r: Option<u64>)
        ensures
            match r {
                Some(d) => after_failure_spec(self.retries, self.backoff, attempt) == Some(d as int),
                None => after_failure_spec(self.retries, self.backoff, attempt) is None,
            },
    {
        if attempt < self.retries {
            Some(self.backoff.delay_for(attempt))
        } else {
            None
        }
    }
}

impl Default for RetryPolicy {
    /// Three retries without delay.
    fn default() -> (p: Self)
        ensures
            p.retries == 3,
            p.backoff == BackoffStrategy::NoBackoff,
    {
        Self::new(3)
    }
}

/// Retry policy for asynchronous operations.
pub struct AsyncRetryPolicy {
    config: RetryConfig,
}

impl AsyncRetryPolicy {
    /// The configuration.
    pub closed spec fn spec_config(&self) -> RetryConfig {
        self.config
    }

    /// A policy with the given configuration.
    pub fn new(config: RetryConfig) -> (p: Self)
        ensures
            p.spec_config() == config,
    {
        AsyncRetryPolicy { config }
    }

    /// A policy with the default configuration.
    pub fn default() -> (p: Self)
        ensures
            p.spec_config().max_retries == 3,
            p.spec_config().backoff == (BackoffStrategy::Exponential { base: 100, max: 5_000 }),
    {
        Self::new(RetryConfig::default())
    }

    /// A policy that never retries (the backoff is the default one).
    pub fn no_retries() -> (p: Self)
        ensures
            p.spec_config().max_retries == 0,
            p.spec_config().backoff == (BackoffStrategy::Exponential { base: 100, max: 5_000 }),
    {
        Self::new(RetryConfig::no_retries())
    }

    /// The configuration.
    pub fn config(&self) -> (c: RetryConfig)
        ensures
            c == self.spec_config(),
    {
        self.config
    }

    /// After failed attempt `attempt` (0-based): `Some(delay)` to wait and
    /// retry, `None` to give up and report the error.
    pub fn after_failure(&self, attempt: usize) -> (r: Option<u64>)
        ensures
            match r {
                Some(d) => after_failure_spec(
                    self.spec_config().max_retries,
                    self.spec_config().backoff,
                    attempt,
                ) == Some(d as int),
                None => after_failure_spec(
                    self.spec_config().max_retries,
                    self.spec_config().backoff,
                    attempt,
                ) is None,
            },
    {
        if attempt < self.config.max_retries {
            Some(self.config.backoff.delay_for(attempt))
        } else {
            None
        }
    }
}

impl AsyncRetryPolicy {
    /// After failed attempt `attempt` (0-based), whose error the caller's
    /// retry condition accepted (`retryable`) or not: an error that is not
    /// retryable is given up at once; otherwise as [`Self::after_failure`].
    pub fn after_failure_if(&self, attempt: usize, retryable: bool) -> (r: Option<u64>)
        ensures
            !retryable ==> r is None,
            retryable ==> match r {
                Some(d) => after_failure_spec(
                    self.spec_config().max_retries,
                    self.spec_config().backoff,
                    attempt,
                ) == Some(d as int),
                None => after_failure_spec(
                    self.spec_config().max_retries,
                    self.spec_config().backoff,
                    attempt,
                ) is None,
            },
    {
        if retryable {
            self.after_failure(attempt)
        } else {
            None
        }
    }
}

/// With `n` retries an operation that keeps failing is attempted exactly
/// `n + 1` times: every attempt before the last is followed by a retry, the
/// last one by giving up.
pub proof fn law_attempt_count(n: usize, b: BackoffStrategy)
    ensures
        forall|k: usize| k < n ==> (#[trigger] after_failure_spec(n, b, k)) is Some,
        after_failure_spec(n, b, n) is None,
{
}

/// Capped strategies never wait longer than their cap, and exponential and
/// linear delays never shrink from one attempt to the next.
pub proof fn law_backoff_capped_and_monotone(b: BackoffStrategy, a: nat)
    ensures
        b matches BackoffStrategy::Exponential { max, .. } ==> delay_spec(b, a) <= max,
        b matches BackoffStrategy::Linear { max, .. } ==> delay_spec(b, a) <= max,
        delay_spec(b, a) <= delay_spec(b, a + 1),
{
    lemma_pow2_step(a);
    match b {
        BackoffStrategy::Exponential { base, max } => {
            assert(base * pow2(a) <= base * pow2(a + 1)) by (nonlinear_arith)
                requires
                    pow2(a + 1) == 2 * pow2(a),
            ;
        },
        BackoffStrategy::Linear { base, max } => {
            assert(base * (a + 1) <= base * (a + 2)) by (nonlinear_arith);
        },
        _ => {},
    }
}

} // verus!
