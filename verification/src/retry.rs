use vstd::prelude::*;
use vstd::arithmetic::power2::pow2;

verus! {

/// Bounded exponential backoff: the delay for attempt `n` (0-indexed) is
/// `min(base_delay * 2^n, max_delay)`, in seconds.
#[derive(Debug, Clone)]
pub struct RetryPolicy {
    pub max_retries: u64,
    pub base_delay_secs: u64,
    pub max_delay_secs: u64,
}

impl RetryPolicy {
    /// The default policy: five retries, 5 s base delay, 300 s cap.
    pub fn new() -> (r: RetryPolicy)
        ensures
            r.max_retries == 5,
            r.base_delay_secs == 5,
            r.max_delay_secs == 300,
    {
        RetryPolicy { max_retries: 5, base_delay_secs: 5, max_delay_secs: 300 }
    }

    /// `min(base_delay * 2^attempt, max_delay)`.
    pub open spec fn spec_delay(&self, attempt: u64) -> int {
        let raw = self.base_delay_secs * pow2(attempt as nat);
        if raw <= self.max_delay_secs {
            raw as int
        } else {
            self.max_delay_secs as int
        }
    }

    /// Backoff delay in seconds before the retry with the given 0-indexed
    /// attempt number.
    pub fn calculate_delay(&self, attempt: u64) -> (r: u64)
        ensures
            r == self.spec_delay(attempt),
    {
        let mut delay: u64 = self.base_delay_secs;
        let mut i: u64 = 0;
        if delay > self.max_delay_secs {
            proof {
                vstd::arithmetic::power2::lemma_pow2_pos(attempt as nat);
                vstd::arithmetic::mul::lemma_mul_inequality(
                    1,
                    pow2(attempt as nat) as int,
                    self.base_delay_secs as int,
                );
            }
            return self.max_delay_secs;
        }
        proof {
            vstd::arithmetic::power2::lemma2_to64();
        }
        while i < attempt
            invariant
                i <= attempt,
                delay <= self.max_delay_secs,
                delay == if self.base_delay_secs * pow2(i as nat) <= self.max_delay_secs {
                    (self.base_delay_secs * pow2(i as nat)) as int
                } else {
                    self.max_delay_secs as int
                },
            decreases attempt - i,
        {
            proof {
                vstd::arithmetic::power2::lemma_pow2_unfold((i + 1) as nat);
                vstd::arithmetic::power2::lemma_pow2_pos(i as nat);
            }
            let next = delay.checked_mul(2);
            delay = match next {
                Some(d) => {
                    proof {
                        if self.base_delay_secs * pow2(i as nat) <= self.max_delay_secs {
                            assert(self.base_delay_secs * pow2((i + 1) as nat) == (
                            self.base_delay_secs * pow2(i as nat)) * 2)
                                by (nonlinear_arith)
                                requires
                                    pow2((i + 1) as nat) == 2 * pow2(i as nat),
                            ;
                        } else {
                            assert(self.base_delay_secs * pow2((i + 1) as nat) > self.max_delay_secs)
                                by (nonlinear_arith)
                                requires
                                    pow2((i + 1) as nat) == 2 * pow2(i as nat),
                                    pow2(i as nat) >= 1,
                                    self.base_delay_secs * pow2(i as nat) > self.max_delay_secs,
                            ;
                        }
                    }
                    if d <= self.max_delay_secs {
                        d
                    } else {
                        self.max_delay_secs
                    }
                },
                None => {
                    proof {
                        assert(self.base_delay_secs * pow2((i + 1) as nat) > self.max_delay_secs)
                            by (nonlinear_arith)
                            requires
                                pow2((i + 1) as nat) == 2 * pow2(i as nat),
                                self.base_delay_secs * pow2(i as nat) == delay || (
                                self.base_delay_secs * pow2(i as nat) > self.max_delay_secs),
                                delay * 2 > u64::MAX,
                                self.max_delay_secs <= u64::MAX,
                        ;
                    }
                    self.max_delay_secs
                },
            };
            i = i + 1;
        }
        delay
    }
}

} // verus!
