//! Admission and retry policy.

use crate::binary64::Binary64;
use crate::error::ValueError;
use vstd::prelude::*;

verus! {

/// What happens to a submission that finds the admission queue full.
#[derive(Clone, Copy, Debug, PartialEq, Eq, Structural)]
pub enum OnFull {
    /// Refuse it at once.
    REJECT,
    /// Accept it, and let it wait for room.
    WAIT,
}

/// How often, and how long apart, a failing call is repeated.
///
/// A policy always allows at least one attempt, and its multiplier is a finite
/// number of at least one.
#[derive(Clone, Copy, Debug)]
pub struct RetryPolicy {
    max_attempts: u32,
    backoff_ms: u64,
    backoff_multiplier: Binary64,
    max_backoff_ms: u64,
    jitter: bool,
}

impl View for RetryPolicy {
    type V = RetryConfig;

    closed spec fn view(&self) -> RetryConfig {
        RetryConfig {
            max_attempts: self.max_attempts,
            backoff_ms: self.backoff_ms,
            multiplier: self.backoff_multiplier,
            max_backoff_ms: self.max_backoff_ms,
            jitter: self.jitter,
        }
    }
}

impl Default for RetryPolicy {
    /// Three attempts; 100 ms before the second, doubling up to five seconds,
    /// with jitter.
    fn default() -> (policy: Self)
        ensures
            policy@ == (RetryConfig {
                max_attempts: 3,
                backoff_ms: 100,
                multiplier: Binary64 { bits: 0x4000_0000_0000_0000 },
                max_backoff_ms: 5000,
                jitter: true,
            }),
    {
        RetryPolicy {
            max_attempts: 3,
            backoff_ms: 100,
            backoff_multiplier: Binary64 { bits: 0x4000_0000_0000_0000 },
            max_backoff_ms: 5000,
            jitter: true,
        }
    }
}

impl RetryPolicy {
    #[verifier::type_invariant]
    spec fn valid(self) -> bool {
        self@.valid()
    }

    /// A policy with these parameters. The first one out of range is reported:
    /// the number of attempts, then the multiplier.
    pub fn new(
        max_attempts: u32,
        backoff_ms: u64,
        backoff_multiplier: Binary64,
        max_backoff_ms: u64,
        jitter: bool,
    ) -> (policy: Result<Self, ValueError>)
        ensures
            policy is Ok <==> max_attempts >= 1 && backoff_multiplier.finite_at_least_one(),
            policy matches Ok(p) ==> p@ == (RetryConfig {
                max_attempts,
                backoff_ms,
                multiplier: backoff_multiplier,
                max_backoff_ms,
                jitter,
            }),
            policy matches Err(e) ==> e == (if max_attempts == 0 {
                ValueError::MaxAttempts
            } else {
                ValueError::BackoffMultiplier
            }),
    {
        if max_attempts == 0 {
            return Err(ValueError::MaxAttempts);
        }
        if !backoff_multiplier.is_finite_at_least_one() {
            return Err(ValueError::BackoffMultiplier);
        }
        Ok(RetryPolicy { max_attempts, backoff_ms, backoff_multiplier, max_backoff_ms, jitter })
    }

    pub fn max_attempts(&self) -> (value: u32)
        ensures
            value == self@.max_attempts,
            value >= 1,
    {
        proof {
            use_type_invariant(self);
        }
        self.max_attempts
    }

    pub fn backoff_ms(&self) -> (value: u64)
        ensures
            value == self@.backoff_ms,
    {
        self.backoff_ms
    }

    pub fn backoff_multiplier(&self) -> (value: Binary64)
        ensures
            value == self@.multiplier,
            value.finite_at_least_one(),
    {
        proof {
            use_type_invariant(self);
        }
        self.backoff_multiplier
    }

    pub fn max_backoff_ms(&self) -> (value: u64)
        ensures
            value == self@.max_backoff_ms,
    {
        self.max_backoff_ms
    }

    pub fn jitter(&self) -> (value: bool)
        ensures
            value == self@.jitter,
    {
        self.jitter
    }
}

/// The retry parameters that a runtime works with.
#[derive(Clone, Copy, Debug)]
pub struct RetryConfig {
    pub max_attempts: u32,
    /// Pause before the second attempt, in milliseconds.
    pub backoff_ms: u64,
    /// Growth of the pause from one attempt to the next.
    pub multiplier: Binary64,
    /// Upper bound of the pause in milliseconds; zero stands for no bound.
    pub max_backoff_ms: u64,
    pub jitter: bool,
}

/// The pause before an attempt, as the operands of the product that gives it:
/// `base_ms`, times `multiplier` raised to `exponent`, at most `cap_ms`, times
/// one half plus `jitter_hundredths` hundredths. A missing operand changes
/// nothing.
#[derive(Clone, Copy, Debug, PartialEq, Eq, Structural)]
pub enum Backoff {
    /// No pause.
    Zero,
    Scaled {
        base_ms: u64,
        multiplier: Binary64,
        exponent: i32,
        cap_ms: Option<u64>,
        jitter_hundredths: Option<u64>,
    },
}

/// Hundredths that jitter adds to one half, for an attempt of a task.
pub open spec fn jitter_step(task_id: u64, attempt: u32) -> u64 {
    task_id.wrapping_add(attempt as u64).wrapping_mul(17) % 51
}

impl RetryConfig {
    /// At least one attempt, and a finite multiplier of at least one.
    pub open spec fn valid(self) -> bool {
        self.max_attempts >= 1 && self.multiplier.finite_at_least_one()
    }

    /// How often a call is made before it is given up: at least once.
    pub open spec fn attempts(self) -> int {
        if self.max_attempts >= 1 {
            self.max_attempts as int
        } else {
            1
        }
    }

    /// The pause before attempt `attempt` of a task, where attempts count from
    /// zero.
    pub open spec fn backoff(self, attempt: u32, task_id: u64) -> Backoff {
        if attempt == 0 || self.backoff_ms == 0 {
            Backoff::Zero
        } else {
            Backoff::Scaled {
                base_ms: self.backoff_ms,
                multiplier: self.multiplier,
                exponent: (attempt - 1) as i32,
                cap_ms: if self.max_backoff_ms == 0 {
                    None
                } else {
                    Some(self.max_backoff_ms)
                },
                jitter_hundredths: if self.jitter {
                    Some(jitter_step(task_id, attempt))
                } else {
                    None
                },
            }
        }
    }

    /// One attempt, and no pause.
    pub open spec fn once() -> RetryConfig {
        RetryConfig {
            max_attempts: 1,
            backoff_ms: 0,
            multiplier: Binary64 { bits: 0x3ff0_0000_0000_0000 },
            max_backoff_ms: 0,
            jitter: false,
        }
    }

    /// One attempt, and no pause.
    pub fn none() -> (config: Self)
        ensures
            config == Self::once(),
            config.valid(),
    {
        RetryConfig {
            max_attempts: 1,
            backoff_ms: 0,
            multiplier: Binary64 { bits: 0x3ff0_0000_0000_0000 },
            max_backoff_ms: 0,
            jitter: false,
        }
    }

    /// The parameters of a policy.
    pub fn from_policy(policy: &RetryPolicy) -> (config: Self)
        ensures
            config == policy@,
            config.valid(),
    {
        proof {
            use_type_invariant(policy);
        }
        RetryConfig {
            max_attempts: policy.max_attempts,
            backoff_ms: policy.backoff_ms,
            multiplier: policy.backoff_multiplier,
            max_backoff_ms: policy.max_backoff_ms,
            jitter: policy.jitter,
        }
    }

    /// The pause before attempt `attempt` of a task. Jitter follows from the
    /// task and the attempt, with sums and products that wrap around.
    pub fn backoff_for(&self, attempt: u32, task_id: u64) -> (pause: Backoff)
        ensures
            pause == self.backoff(attempt, task_id),
            pause matches Backoff::Scaled { jitter_hundredths: Some(step), .. } ==> step <= 50,
    {
        if attempt == 0 || self.backoff_ms == 0 {
            return Backoff::Zero;
        }
        let cap_ms = if self.max_backoff_ms == 0 {
            None
        } else {
            Some(self.max_backoff_ms)
        };
        let jitter_hundredths = if self.jitter {
            Some(task_id.wrapping_add(attempt as u64).wrapping_mul(17) % 51)
        } else {
            None
        };
        Backoff::Scaled {
            base_ms: self.backoff_ms,
            multiplier: self.multiplier,
            exponent: (attempt - 1) as i32,
            cap_ms,
            jitter_hundredths,
        }
    }
}

/// Without a retry policy a call is made once, and no pause is asked for.
pub proof fn law_no_policy_no_retry(attempt: u32, task_id: u64)
    ensures
        RetryConfig::once().attempts() == 1,
        RetryConfig::once().backoff(attempt, task_id) == Backoff::Zero,
{
}

/// No pause is asked for before the first attempt; with a non-zero backoff one
/// is asked for before every later attempt.
pub proof fn law_pause_between_attempts_only(config: RetryConfig, attempt: u32, task_id: u64)
    ensures
        config.backoff(attempt, task_id) == Backoff::Zero <==> attempt == 0 || config.backoff_ms
            == 0,
{
}

/// Every pause that is asked for starts from the configured one, grows by the
/// configured multiplier once for each attempt after the second, and is capped
/// whenever a cap is configured, with jitter or without. Jitter only ever
/// shortens it, to no less than half: so no pause exceeds the cap.
pub proof fn law_pause_operands(config: RetryConfig, attempt: u32, task_id: u64)
    requires
        config.backoff_ms > 0,
        attempt >= 1,
    ensures
        config.backoff(attempt, task_id) matches Backoff::Scaled {
            base_ms,
            multiplier,
            exponent,
            cap_ms,
            jitter_hundredths,
        } && {
            &&& base_ms == config.backoff_ms
            &&& multiplier == config.multiplier
            &&& attempt - 1 <= i32::MAX ==> exponent == attempt - 1
            &&& config.max_backoff_ms > 0 ==> cap_ms == Some(config.max_backoff_ms)
            &&& config.max_backoff_ms == 0 ==> cap_ms is None
            &&& config.jitter <==> jitter_hundredths is Some
            &&& jitter_hundredths matches Some(step) ==> 0 <= step <= 50
        },
{
}

/// Jitter follows from the sum of the task's number and the attempt, each of
/// them counting as much as the other: seventeen times that sum, with what does
/// not fit in sixty-four bits cut off, and of that the remainder by fifty-one.
pub proof fn law_jitter_of_task_and_attempt(config: RetryConfig, attempt: u32, task_id: u64)
    requires
        config.backoff_ms > 0,
        attempt >= 1,
        config.jitter,
    ensures
        config.backoff(attempt, task_id) matches Backoff::Scaled {
            jitter_hundredths: Some(step),
            ..
        } && step as int == ((((task_id + attempt) % 0x1_0000_0000_0000_0000) * 17)
            % 0x1_0000_0000_0000_0000) % 51,
{
}

/// A call is made at least once, and otherwise as often as configured. Parameters
/// are valid exactly if they allow an attempt and the multiplier is finite and at
/// least one.
pub proof fn law_attempts_as_configured(config: RetryConfig)
    ensures
        config.max_attempts >= 1 ==> config.attempts() == config.max_attempts,
        config.max_attempts == 0 ==> config.attempts() == 1,
        config.valid() <==> config.max_attempts >= 1 && 0x3ff0_0000_0000_0000
            <= config.multiplier.bits < 0x7ff0_0000_0000_0000,
        RetryConfig::once().max_attempts == 1,
        RetryConfig::once().backoff_ms == 0,
        RetryConfig::once().multiplier.bits == 0x3ff0_0000_0000_0000,
        RetryConfig::once().max_backoff_ms == 0,
        !RetryConfig::once().jitter,
{
}

} // verus!
