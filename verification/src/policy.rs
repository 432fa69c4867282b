//! How often a submission is attempted, and how long it rests in between.

use vstd::prelude::*;

verus! {

/// The bound on attempts and the base of the backoff delay.
#[derive(Clone, Copy, Debug, PartialEq, Eq)]
pub struct RetryPolicy {
    /// The number of attempts that one submission may make.
    pub max_retries: u32,
    /// The rest after the first failed attempt, in milliseconds; the rest
    /// after a later one is a multiple of it.
    pub base_delay_ms: u32,
}

/// The rest before the attempt with index `attempt` (the first attempt has
/// index zero), in milliseconds.
pub open spec fn backoff(base_delay_ms: u32, attempt: u32) -> nat {
    (base_delay_ms * attempt) as nat
}

impl RetryPolicy {
    /// A policy of `max_retries` attempts with the given base delay.
    pub fn new(max_retries: u32, base_delay_ms: u32) -> (policy: RetryPolicy)
        ensures
            policy == (RetryPolicy { max_retries, base_delay_ms }),
    {
        RetryPolicy { max_retries, base_delay_ms }
    }

    /// The rest before the attempt with index `attempt`, in milliseconds.
    pub fn backoff_delay(&self, attempt: u32) -> (delay_ms: u64)
        ensures
            delay_ms == backoff(self.base_delay_ms, attempt),
    {
        let base: u64 = self.base_delay_ms as u64;
        let factor: u64 = attempt as u64;
        assert(base * factor <= u64::MAX) by (nonlinear_arith)
            requires
                base <= 0xffff_ffff,
                factor <= 0xffff_ffff,
        ;
        base * factor
    }
}

impl Default for RetryPolicy {
    /// Two attempts, five seconds apart.
    fn default() -> (policy: RetryPolicy)
        ensures
            policy == (RetryPolicy { max_retries: 2, base_delay_ms: 5000 }),
    {
        RetryPolicy { max_retries: 2, base_delay_ms: 5000 }
    }
}

} // verus!
