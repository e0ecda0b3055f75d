//! Retry configuration: how long to wait between attempts and when to give up.

use std::time::Duration;
use vstd::prelude::*;

verus! {

/// Retry at a constant interval, optionally giving up after a number of retries.
#[derive(Debug)]
pub struct LinearRetry {
    backoff: Duration,
    max_retries: Option<usize>,
}

impl LinearRetry {
    /// The delay between two attempts.
    pub closed spec fn spec_backoff(self) -> Duration {
        self.backoff
    }

    /// The largest retry number that is still allowed; `None` allows every retry.
    pub closed spec fn spec_max_retries(self) -> Option<usize> {
        self.max_retries
    }

    pub fn new(backoff: Duration, max_retries: Option<usize>) -> (linear: Self)
        ensures
            linear.spec_backoff() == backoff,
            linear.spec_max_retries() == max_retries,
    {
        LinearRetry { backoff, max_retries }
    }

    pub fn backoff(&self) -> (backoff: &Duration)
        ensures
            *backoff == self.spec_backoff(),
    {
        &self.backoff
    }

    pub fn max_retries(&self) -> (max_retries: &Option<usize>)
        ensures
            *max_retries == self.spec_max_retries(),
    {
        &self.max_retries
    }
}

/// The available retry strategies.
#[derive(Debug)]
pub enum RetryMethod {
    Linear(LinearRetry),
}

impl RetryMethod {
    /// The delay before the next attempt. It does not depend on how many
    /// attempts have failed so far.
    pub open spec fn spec_backoff(self) -> Duration {
        match self {
            RetryMethod::Linear(linear) => linear.spec_backoff(),
        }
    }

    /// The largest retry number that is still allowed; `None` allows every retry.
    pub open spec fn spec_max_retries(self) -> Option<usize> {
        match self {
            RetryMethod::Linear(linear) => linear.spec_max_retries(),
        }
    }

    /// Whether a further attempt may follow once the attempt numbered
    /// `attempt_index` (counted from zero) has failed. The further attempt
    /// would be retry number `attempt_index + 1`, which must not exceed the
    /// limit.
    pub open spec fn permits_retry(self, attempt_index: nat) -> bool {
        match self.spec_max_retries() {
            None => true,
            Some(max) => attempt_index + 1 <= max,
        }
    }

    /// Decides whether the attempt after attempt `attempt_index` may proceed.
    pub fn should_retry(&self, attempt_index: usize) -> (retry: bool)
        ensures
            retry == self.permits_retry(attempt_index as nat),
    {
        match self {
            RetryMethod::Linear(linear) => match linear.max_retries() {
                None => true,
                Some(max) => attempt_index < *max,
            },
        }
    }

    /// The delay to wait out before the next attempt.
    pub fn backoff_duration(&self) -> (backoff: Duration)
        ensures
            backoff == self.spec_backoff(),
    {
        match self {
            RetryMethod::Linear(linear) => *linear.backoff(),
        }
    }
}

/// What a queue needs to know to operate.
#[derive(Debug)]
pub struct ProwlQueueOptions {
    retry_method: RetryMethod,
}

impl ProwlQueueOptions {
    /// The retry strategy that these options carry.
    pub closed spec fn spec_retry_method(self) -> RetryMethod {
        self.retry_method
    }

    pub fn new(retry_method: RetryMethod) -> (options: Self)
        ensures
            options.spec_retry_method() == retry_method,
    {
        Self { retry_method }
    }

    pub fn retry_method(&self) -> (retry_method: &RetryMethod)
        ensures
            *retry_method == self.spec_retry_method(),
    {
        &self.retry_method
    }
}

} // verus!
