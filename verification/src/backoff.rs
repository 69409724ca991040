//! The delay between two attempts to reach the relay.

use vstd::prelude::*;

verus! {

/// The shortest pause of the exponential policy, in milliseconds.
pub const MIN_BACKOFF_MS: u64 = 1000;

/// The longest pause of the exponential policy, in milliseconds.
pub const MAX_BACKOFF_MS: u64 = 30000;

/// The shortest pause that a fixed interval is allowed to ask for.
pub const MIN_FIXED_INTERVAL_MS: u64 = 500;

/// How the pause before a new attempt is chosen.
#[derive(Clone, Copy, Debug, PartialEq, Eq, Structural)]
pub enum BackoffPolicy {
    /// The same pause every time, never under half a second.
    Fixed { interval_ms: u64 },
    /// A pause that starts at `min_ms`, doubles after every attempt that
    /// failed or was dropped, and never exceeds `max_ms`.
    Exponential { min_ms: u64, max_ms: u64 },
}

/// The pause that `policy` starts with, and returns to after a success.
pub open spec fn first_delay(policy: BackoffPolicy) -> u64 {
    match policy {
        BackoffPolicy::Fixed { interval_ms } => if interval_ms < MIN_FIXED_INTERVAL_MS {
            MIN_FIXED_INTERVAL_MS
        } else {
            interval_ms
        },
        BackoffPolicy::Exponential { min_ms, max_ms } => if min_ms < max_ms {
            min_ms
        } else {
            max_ms
        },
    }
}

/// The longest pause that `policy` ever asks for.
pub open spec fn ceiling(policy: BackoffPolicy) -> u64 {
    match policy {
        BackoffPolicy::Fixed { .. } => first_delay(policy),
        BackoffPolicy::Exponential { max_ms, .. } => max_ms,
    }
}

/// The pause that follows the pause `current` after one more failure.
pub open spec fn next_delay(policy: BackoffPolicy, current: u64) -> u64 {
    match policy {
        BackoffPolicy::Fixed { .. } => current,
        BackoffPolicy::Exponential { max_ms, .. } => if 2 * current < max_ms {
            (2 * current) as u64
        } else {
            max_ms
        },
    }
}

/// The pause after `failures` consecutive failures since the last success.
pub open spec fn delay_after(policy: BackoffPolicy, failures: nat) -> u64
    decreases failures,
{
    if failures == 0 {
        first_delay(policy)
    } else {
        next_delay(policy, delay_after(policy, (failures - 1) as nat))
    }
}

/// The pauses of consecutive failures never shrink and never exceed the
/// ceiling of the policy.
pub proof fn lemma_delays_grow_to_ceiling(policy: BackoffPolicy, failures: nat)
    ensures
        first_delay(policy) <= delay_after(policy, failures),
        delay_after(policy, failures) <= delay_after(policy, failures + 1),
        delay_after(policy, failures + 1) <= ceiling(policy),
    decreases failures,
{
    if failures > 0 {
        lemma_delays_grow_to_ceiling(policy, (failures - 1) as nat);
    }
}

/// The state of the backoff: the policy, and the pause that the next wait
/// will take.
#[derive(Clone, Copy, Debug, PartialEq, Eq)]
pub struct Backoff {
    policy: BackoffPolicy,
    current_ms: u64,
}

impl Backoff {
    /// The pause lies between the first pause and the ceiling of the policy.
    #[verifier::type_invariant]
    pub closed spec fn wf(self) -> bool {
        first_delay(self.policy) <= self.current_ms <= ceiling(self.policy)
    }

    /// The policy in force.
    pub closed spec fn policy(self) -> BackoffPolicy {
        self.policy
    }

    /// The pause that the next wait takes.
    pub closed spec fn delay(self) -> u64 {
        self.current_ms
    }

    /// A backoff at the first pause of `policy`.
    pub fn new(policy: BackoffPolicy) -> (b: Self)
        ensures
            b.policy() == policy,
            b.delay() == first_delay(policy),
    {
        let first = match policy {
            BackoffPolicy::Fixed { interval_ms } => if interval_ms < MIN_FIXED_INTERVAL_MS {
                MIN_FIXED_INTERVAL_MS
            } else {
                interval_ms
            },
            BackoffPolicy::Exponential { min_ms, max_ms } => if min_ms < max_ms {
                min_ms
            } else {
                max_ms
            },
        };
        Backoff { policy, current_ms: first }
    }

    /// The exponential policy between one and thirty seconds.
    pub fn exponential() -> (b: Self)
        ensures
            b.policy() == (BackoffPolicy::Exponential {
                min_ms: MIN_BACKOFF_MS,
                max_ms: MAX_BACKOFF_MS,
            }),
            b.delay() == MIN_BACKOFF_MS,
    {
        Backoff::new(BackoffPolicy::Exponential { min_ms: MIN_BACKOFF_MS, max_ms: MAX_BACKOFF_MS })
    }

    /// The pause to take before the next attempt, in milliseconds.
    pub fn delay_ms(&self) -> (ms: u64)
        ensures
            ms == self.delay(),
            first_delay(self.policy()) <= ms <= ceiling(self.policy()),
    {
        proof {
            use_type_invariant(self);
        }
        self.current_ms
    }

    /// Notes that an attempt failed or a connection dropped: the next pause
    /// is the one that follows the current one.
    pub fn record_failure(&mut self)
        ensures
            final(self).policy() == old(self).policy(),
            final(self).delay() == next_delay(old(self).policy(), old(self).delay()),
            old(self).delay() <= final(self).delay() <= ceiling(old(self).policy()),
    {
        proof {
            use_type_invariant(&*self);
        }
        match self.policy {
            BackoffPolicy::Fixed { .. } => {},
            BackoffPolicy::Exponential { max_ms, .. } => {
                if self.current_ms < max_ms - self.current_ms {
                    self.current_ms = self.current_ms + self.current_ms;
                } else {
                    self.current_ms = max_ms;
                }
            },
        }
    }

    /// Notes that a connection was made: the next pause is the first one
    /// again.
    pub fn record_success(&mut self)
        ensures
            final(self).policy() == old(self).policy(),
            final(self).delay() == first_delay(old(self).policy()),
    {
        let fresh = Backoff::new(self.policy);
        self.current_ms = fresh.current_ms;
    }
}

} // verus!
