//! How often and after which delays something is tried again.

use vstd::prelude::*;

verus! {

/// Configuration for provider creation and retry behavior.
pub struct ProviderConfig {
    /// Maximum number of attempts for provider creation and translation requests.
    pub max_attempts: usize,
    /// Base delay in milliseconds for exponential backoff (e.g., 500ms, 1s, 2s).
    pub base_delay_ms: u64,
    /// Interval in seconds for periodic model availability rechecks.
    /// Set to 0 to disable periodic rechecking.
    pub recheck_interval_secs: u64,
}

impl Default for ProviderConfig {
    fn default() -> (r: Self)
        ensures
            r.max_attempts == 5,
            r.base_delay_ms == 1000,
            r.recheck_interval_secs == 30,
    {
        ProviderConfig { max_attempts: 5, base_delay_ms: 1000, recheck_interval_secs: 30 }
    }
}

impl Clone for ProviderConfig {
    fn clone(&self) -> (r: Self)
        ensures
            r == *self,
    {
        ProviderConfig {
            max_attempts: self.max_attempts,
            base_delay_ms: self.base_delay_ms,
            recheck_interval_secs: self.recheck_interval_secs,
        }
    }
}

impl ProviderConfig {
    /// The milliseconds to wait after failed attempt number `attempt`: the base delay, doubled
    /// for every attempt after the first.
    pub open spec fn delay_spec(self, attempt: int) -> nat {
        self.base_delay_ms as nat * vstd::arithmetic::power2::pow2((attempt - 1) as nat)
    }

    /// How many attempts are made: the configured number, but one at least.
    pub open spec fn attempts(self) -> int {
        if self.max_attempts == 0 {
            1
        } else {
            self.max_attempts as int
        }
    }

    /// Whether another attempt follows failed attempt number `attempt`.
    pub open spec fn goes_on(self, attempt: int) -> bool {
        attempt < self.max_attempts
    }

    /// Whether the delay after failed attempt number `attempt`, if there is one, is a number of
    /// milliseconds that can be waited.
    pub open spec fn can_wait(self, attempt: int) -> bool {
        self.goes_on(attempt) ==> self.delay_spec(attempt) <= u64::MAX
    }

    /// The delay after failed attempt number `attempt`, unless it is too long to write down.
    fn checked_delay(&self, attempt: usize) -> (r: Option<u64>)
        requires
            attempt >= 1,
        ensures
            r matches Some(d) ==> d == self.delay_spec(attempt as int),
            r is None ==> self.delay_spec(attempt as int) > u64::MAX,
    {
        if self.base_delay_ms == 0 {
            return Some(0);
        }
        let mut delay: u64 = self.base_delay_ms;
        let mut i: usize = 1;
        proof {
            vstd::arithmetic::power2::lemma2_to64();
            assert(self.delay_spec(1) == delay) by (nonlinear_arith)
                requires
                    self.delay_spec(1) == self.base_delay_ms as nat
                        * vstd::arithmetic::power2::pow2(0),
                    vstd::arithmetic::power2::pow2(0) == 1,
                    delay == self.base_delay_ms,
            ;
        }
        while i < attempt
            invariant
                1 <= i <= attempt,
                delay == self.delay_spec(i as int),
            decreases attempt - i,
        {
            proof {
                lemma_delay_doubles(*self, i as int);
                lemma_delay_grows(*self, i + 1, attempt as int);
            }
            if delay > u64::MAX / 2 {
                return None;
            }
            delay = delay * 2;
            i = i + 1;
        }
        Some(delay)
    }

    /// Tells whether the delay after failed attempt number `attempt` can be waited.
    pub fn delay_fits(&self, attempt: usize) -> (r: bool)
        requires
            attempt >= 1,
        ensures
            r == self.can_wait(attempt as int),
    {
        if attempt >= self.max_attempts {
            true
        } else {
            self.checked_delay(attempt).is_some()
        }
    }

    /// The delay in milliseconds after failed attempt number `attempt`, or `None` if it was the
    /// last attempt.
    pub fn next_delay(&self, attempt: usize) -> (r: Option<u64>)
        requires
            attempt >= 1,
            self.can_wait(attempt as int),
        ensures
            r is Some <==> self.goes_on(attempt as int),
            r matches Some(d) ==> d == self.delay_spec(attempt as int),
    {
        if attempt < self.max_attempts {
            self.checked_delay(attempt)
        } else {
            None
        }
    }
}

proof fn lemma_delay_doubles(config: ProviderConfig, attempt: int)
    requires
        attempt >= 1,
    ensures
        config.delay_spec(attempt + 1) == 2 * config.delay_spec(attempt),
{
    let b = config.base_delay_ms as nat;
    let e = (attempt - 1) as nat;
    vstd::arithmetic::power2::lemma_pow2_unfold(attempt as nat);
    let p = vstd::arithmetic::power2::pow2(e);
    assert(b * (2 * p) == 2 * (b * p)) by (nonlinear_arith);
}

proof fn lemma_delay_grows(config: ProviderConfig, a: int, b: int)
    requires
        1 <= a <= b,
    ensures
        config.delay_spec(a) <= config.delay_spec(b),
    decreases b - a,
{
    if a < b {
        lemma_delay_doubles(config, b - 1);
        lemma_delay_grows(config, a, b - 1);
    }
}

/// The delay after the first failed attempt is the base delay, and each one after it is twice the
/// one before.
pub proof fn law_delays_double(config: ProviderConfig, attempt: int)
    requires
        attempt >= 1,
    ensures
        config.delay_spec(1) == config.base_delay_ms,
        config.delay_spec(attempt + 1) == 2 * config.delay_spec(attempt),
{
    vstd::arithmetic::power2::lemma2_to64();
    let b = config.base_delay_ms as nat;
    assert(b * 1 == b);
    lemma_delay_doubles(config, attempt);
}

} // verus!
