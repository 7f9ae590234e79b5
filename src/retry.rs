use vstd::prelude::*;
use vstd::arithmetic::power::pow;
use vstd::arithmetic::power::lemma_pow_adds;
use vstd::arithmetic::power::lemma_pow1;

verus! {

/// The retry policy's settings: how often to retry, and the exponential backoff
/// `min(initial_delay_ms * backoff_factor ^ attempt, max_delay_ms)`.
#[derive(Debug, Clone, Copy)]
pub struct RetryConfig {
    pub max_retries: u32,
    pub initial_delay_ms: u64,
    pub max_delay_ms: u64,
    pub backoff_factor: u64,
}

impl Default for RetryConfig {
    /// Three retries, from 100 ms doubling up to 10 s.
    fn default() -> (r: Self)
        ensures
            r.max_retries == 3,
            r.initial_delay_ms == 100,
            r.max_delay_ms == 10000,
            r.backoff_factor == 2,
    {
        RetryConfig { max_retries: 3, initial_delay_ms: 100, max_delay_ms: 10000, backoff_factor: 2 }
    }
}

/// The delay before retry number `attempt` (counted from 0), in milliseconds.
pub open spec fn delay_ms(c: RetryConfig, attempt: nat) -> int {
    let raw = c.initial_delay_ms * pow(c.backoff_factor as int, attempt);
    if raw < c.max_delay_ms {
        raw
    } else {
        c.max_delay_ms as int
    }
}

/// Whether a failure after `attempt` retries is retried: while attempts remain,
/// when no status is known, or on 429, or on a status of 500 and above.
pub open spec fn retry_allowed(c: RetryConfig, attempt: u32, status: Option<u16>) -> bool {
    attempt < c.max_retries && match status {
        Some(code) => code == 429 || code >= 500,
        None => true,
    }
}

/// Exponential backoff for transient failures.
pub struct RetryStrategy {
    pub config: RetryConfig,
}

impl RetryStrategy {
    pub fn new(config: RetryConfig) -> (r: Self)
        ensures
            r.config == config,
    {
        RetryStrategy { config }
    }

    /// The delay before retry number `attempt`, in milliseconds.
    pub fn get_delay(&self, attempt: u32) -> (r: u64)
        ensures
            r == delay_ms(self.config, attempt as nat),
    {
        let c = self.config;
        if c.backoff_factor == 0 {
            if attempt == 0 {
                proof { vstd::arithmetic::power::lemma_pow0(0); }
                return if c.initial_delay_ms < c.max_delay_ms { c.initial_delay_ms } else { c.max_delay_ms };
            }
            proof { lemma_pow_zero_base(attempt as nat); }
            assert(c.initial_delay_ms * pow(0, attempt as nat) == 0) by (nonlinear_arith)
                requires pow(0, attempt as nat) == 0;
            return 0;
        }
        // `cur` is the raw delay capped at the maximum; with a factor of at
        // least one the cap commutes with each multiplication.
        let mut cur: u64 = if c.initial_delay_ms < c.max_delay_ms { c.initial_delay_ms } else { c.max_delay_ms };
        let mut i: u32 = 0;
        proof { vstd::arithmetic::power::lemma_pow0(c.backoff_factor as int); }
        while i < attempt
            invariant
                i <= attempt,
                c == self.config,
                c.backoff_factor >= 1,
                cur == delay_ms(c, i as nat),
            decreases attempt - i,
        {
            let ghost raw = c.initial_delay_ms * pow(c.backoff_factor as int, i as nat);
            proof {
                lemma_pow_adds(c.backoff_factor as int, i as nat, 1);
                lemma_pow1(c.backoff_factor as int);
                vstd::arithmetic::power::lemma_pow_positive(c.backoff_factor as int, i as nat);
                assert(c.initial_delay_ms * pow(c.backoff_factor as int, (i + 1) as nat) == raw * c.backoff_factor) by (nonlinear_arith)
                    requires pow(c.backoff_factor as int, (i + 1) as nat) == pow(c.backoff_factor as int, i as nat) * c.backoff_factor,
                        raw == c.initial_delay_ms * pow(c.backoff_factor as int, i as nat);
                assert(raw >= 0) by (nonlinear_arith)
                    requires pow(c.backoff_factor as int, i as nat) > 0,
                        raw == c.initial_delay_ms * pow(c.backoff_factor as int, i as nat),
                        c.initial_delay_ms >= 0;
            }
            if cur >= c.max_delay_ms {
                assert(raw * c.backoff_factor >= c.max_delay_ms) by (nonlinear_arith)
                    requires raw >= c.max_delay_ms, c.backoff_factor >= 1;
                cur = c.max_delay_ms;
            } else {
                // here cur == raw < max
                if cur > c.max_delay_ms / c.backoff_factor {
                    assert(raw * c.backoff_factor >= c.max_delay_ms) by (nonlinear_arith)
                        requires raw > c.max_delay_ms / c.backoff_factor, c.backoff_factor >= 1;
                    cur = c.max_delay_ms;
                } else {
                    assert(cur * c.backoff_factor <= c.max_delay_ms) by (nonlinear_arith)
                        requires cur <= c.max_delay_ms / c.backoff_factor, c.backoff_factor >= 1;
                    cur = cur * c.backoff_factor;
                    if cur >= c.max_delay_ms {
                        cur = c.max_delay_ms;
                    }
                }
            }
            i += 1;
        }
        cur
    }

    /// Whether a failure is retried, given the attempts made and the HTTP status
    /// if one is known.
    pub fn should_retry(&self, attempt: u32, status_code: Option<u16>) -> (r: bool)
        ensures
            r == retry_allowed(self.config, attempt, status_code),
    {
        if attempt >= self.config.max_retries {
            return false;
        }
        match status_code {
            Some(code) => code == 429 || code >= 500,
            None => true,
        }
    }

    /// What to do after a failed try number `attempt` (from 0): `None` to give up
    /// with that failure, or the delay in milliseconds before trying again.
    pub fn after_failure(&self, attempt: u32) -> (r: Option<u64>)
        ensures
            attempt >= self.config.max_retries ==> r is None,
            attempt < self.config.max_retries ==> r == Some(delay_ms(self.config, attempt as nat) as u64),
    {
        if attempt >= self.config.max_retries {
            None
        } else {
            Some(self.get_delay(attempt))
        }
    }
}

proof fn lemma_pow_zero_base(e: nat)
    requires
        e >= 1,
    ensures
        pow(0, e) == 0,
    decreases e,
{
    reveal(pow);
    if e > 1 {
        lemma_pow_zero_base((e - 1) as nat);
    }
}

} // verus!
