use ingestion::retry::{RetryConfig, RetryState};

fn policy(max_retries: u32, initial_backoff: u64, rate_limit_delay: u64) -> RetryConfig {
    RetryConfig { max_retries, initial_backoff, rate_limit_delay }
}

#[test]
fn waits_double_until_retries_run_out() {
    let mut state = RetryState::start(policy(3, 5, 2));
    assert_eq!(state.first_wait(), 2);
    assert_eq!(state.on_failure(), Some(5));
    assert_eq!(state.on_failure(), Some(10));
    assert_eq!(state.on_failure(), Some(20));
    assert_eq!(state.on_failure(), None);
    assert_eq!(state.failures, 3);
}

#[test]
fn fails_after_max_retries_plus_one_attempts() {
    let mut state = RetryState::start(policy(10, 6, 6));
    let mut attempts = 1;
    while state.on_failure().is_some() {
        attempts += 1;
    }
    assert_eq!(attempts, 11);
}

#[test]
fn no_retries_fails_at_first_failure() {
    let mut state = RetryState::start(policy(0, 6, 1));
    assert_eq!(state.first_wait(), 1);
    assert_eq!(state.on_failure(), None);
    assert_eq!(state.on_failure(), None);
}

#[test]
fn backoff_saturates_instead_of_overflowing() {
    let mut state = RetryState::start(policy(3, u64::MAX / 2 + 1, 0));
    assert_eq!(state.on_failure(), Some(u64::MAX / 2 + 1));
    assert_eq!(state.on_failure(), Some(u64::MAX));
    assert_eq!(state.on_failure(), Some(u64::MAX));
    assert_eq!(state.on_failure(), None);
}
