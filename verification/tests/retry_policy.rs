use prowl_queue::{DeliveryFailure, LinearRetry, ProwlQueueOptions, RetryMethod};
use std::time::Duration;

fn linear(backoff: Duration, max_retries: Option<usize>) -> RetryMethod {
    RetryMethod::Linear(LinearRetry::new(backoff, max_retries))
}

#[test]
fn linear_retry_keeps_what_it_was_given() {
    let retry = LinearRetry::new(Duration::from_millis(1500), Some(3));
    assert_eq!(*retry.backoff(), Duration::from_millis(1500));
    assert_eq!(*retry.max_retries(), Some(3));

    let unlimited = LinearRetry::new(Duration::ZERO, None);
    assert_eq!(*unlimited.backoff(), Duration::ZERO);
    assert_eq!(*unlimited.max_retries(), None);
}

#[test]
fn options_keep_their_retry_method() {
    let options = ProwlQueueOptions::new(linear(Duration::from_secs(7), Some(4)));
    let RetryMethod::Linear(retry) = options.retry_method();
    assert_eq!(*retry.backoff(), Duration::from_secs(7));
    assert_eq!(*retry.max_retries(), Some(4));
}

#[test]
fn should_retry_allows_retries_up_to_the_limit() {
    let policy = linear(Duration::from_secs(1), Some(2));
    assert!(policy.should_retry(0));
    assert!(policy.should_retry(1));
    assert!(!policy.should_retry(2));
    assert!(!policy.should_retry(3));
    assert!(!policy.should_retry(usize::MAX));
}

#[test]
fn should_retry_with_a_limit_of_zero_never_retries() {
    let policy = linear(Duration::from_secs(1), Some(0));
    assert!(!policy.should_retry(0));
    assert!(!policy.should_retry(1));
}

#[test]
fn should_retry_with_a_limit_of_one_retries_once() {
    let policy = linear(Duration::from_secs(1), Some(1));
    assert!(policy.should_retry(0));
    assert!(!policy.should_retry(1));
}

#[test]
fn should_retry_without_a_limit_always_retries() {
    let policy = linear(Duration::from_secs(1), None);
    assert!(policy.should_retry(0));
    assert!(policy.should_retry(1));
    assert!(policy.should_retry(1_000_000));
    assert!(policy.should_retry(usize::MAX));
}

#[test]
fn should_retry_at_the_largest_limit() {
    let policy = linear(Duration::from_secs(1), Some(usize::MAX));
    assert!(policy.should_retry(0));
    assert!(policy.should_retry(usize::MAX - 1));
    assert!(!policy.should_retry(usize::MAX));
}

#[test]
fn backoff_duration_is_the_configured_backoff() {
    let limited = linear(Duration::from_millis(250), Some(5));
    assert_eq!(limited.backoff_duration(), Duration::from_millis(250));

    let unlimited = linear(Duration::from_secs(60), None);
    assert_eq!(unlimited.backoff_duration(), Duration::from_secs(60));

    let none = linear(Duration::ZERO, Some(2));
    assert_eq!(none.backoff_duration(), Duration::ZERO);
}

#[test]
fn only_a_lost_request_is_worth_a_retry() {
    assert!(DeliveryFailure::Send.is_retryable());
    assert!(!DeliveryFailure::Api.is_retryable());
    assert!(!DeliveryFailure::Format.is_retryable());
}
