//! The errors that the controller hands to its callers, and their texts.

use vstd::prelude::*;

verus! {

/// A parameter outside the range that the controller accepts.
#[derive(Clone, Copy, Debug, PartialEq, Eq, Structural)]
pub enum ValueError {
    MaxAttempts,
    BackoffMultiplier,
    Timeout,
    MaxConcurrency,
    QueueCapacity,
    Buffer,
}

impl ValueError {
    /// The text of the error.
    pub open spec fn text(self) -> Seq<char> {
        match self {
            ValueError::MaxAttempts => "max_attempts must be at least 1"@,
            ValueError::BackoffMultiplier => "backoff_multiplier must be finite and >= 1"@,
            ValueError::Timeout => "timeout must be a non-negative finite number"@,
            ValueError::MaxConcurrency => "max_concurrency must be at least 1"@,
            ValueError::QueueCapacity => "queue_capacity is too large"@,
            ValueError::Buffer => "buffer must be at least 1"@,
        }
    }

    pub fn message(&self) -> (text: &'static str)
        ensures
            text@ == self.text(),
    {
        match self {
            ValueError::MaxAttempts => "max_attempts must be at least 1",
            ValueError::BackoffMultiplier => "backoff_multiplier must be finite and >= 1",
            ValueError::Timeout => "timeout must be a non-negative finite number",
            ValueError::MaxConcurrency => "max_concurrency must be at least 1",
            ValueError::QueueCapacity => "queue_capacity is too large",
            ValueError::Buffer => "buffer must be at least 1",
        }
    }
}

/// Why a request to the runtime was refused.
#[derive(Clone, Copy, Debug, PartialEq, Eq, Structural)]
pub enum RuntimeError {
    /// The admission queue is full.
    QueueFull,
    /// The runtime is closed and no longer accepts work.
    RuntimeClosed,
    /// A parameter is out of range.
    Value(ValueError),
}

impl RuntimeError {
    /// The text of the error.
    pub open spec fn text(self) -> Seq<char> {
        match self {
            RuntimeError::QueueFull => "admission queue is full"@,
            RuntimeError::RuntimeClosed => "runtime is closed"@,
            RuntimeError::Value(error) => error.text(),
        }
    }

    pub fn message(&self) -> (text: &'static str)
        ensures
            text@ == self.text(),
    {
        match self {
            RuntimeError::QueueFull => "admission queue is full",
            RuntimeError::RuntimeClosed => "runtime is closed",
            RuntimeError::Value(error) => error.message(),
        }
    }
}

/// The text of every error. A parameter out of range reads the same wherever it
/// is reported.
pub proof fn law_error_texts(error: ValueError)
    ensures
        ValueError::MaxAttempts.text() == "max_attempts must be at least 1"@,
        ValueError::BackoffMultiplier.text() == "backoff_multiplier must be finite and >= 1"@,
        ValueError::Timeout.text() == "timeout must be a non-negative finite number"@,
        ValueError::MaxConcurrency.text() == "max_concurrency must be at least 1"@,
        ValueError::QueueCapacity.text() == "queue_capacity is too large"@,
        ValueError::Buffer.text() == "buffer must be at least 1"@,
        RuntimeError::QueueFull.text() == "admission queue is full"@,
        RuntimeError::RuntimeClosed.text() == "runtime is closed"@,
        RuntimeError::Value(error).text() == error.text(),
{
}

} // verus!
