use github_backup::retry::{rate_limit_wait_secs, CallOutcome, ExecutorStep, RequestExecutor};

#[test]
fn first_call_success_returns() {
    let mut e = RequestExecutor::new();
    assert!(e.may_call());
    assert_eq!(e.on_call(CallOutcome::Success), ExecutorStep::Return);
    assert_eq!(e.calls(), 1);
    assert!(!e.may_call());
}

#[test]
fn other_error_is_never_retried() {
    let mut e = RequestExecutor::new();
    assert_eq!(e.on_call(CallOutcome::OtherError), ExecutorStep::Fail);
    assert!(!e.may_call());
}

#[test]
fn api_error_with_quota_left_is_not_retried() {
    let mut e = RequestExecutor::new();
    assert_eq!(e.on_call(CallOutcome::ApiError), ExecutorStep::QueryQuota);
    assert_eq!(e.on_quota(5, 1000, 900), ExecutorStep::Fail);
    assert!(!e.may_call());
    assert_eq!(e.calls(), 1);
}

#[test]
fn exhausted_quota_gives_one_retry_after_wait() {
    let mut e = RequestExecutor::new();
    assert_eq!(e.on_call(CallOutcome::ApiError), ExecutorStep::QueryQuota);
    assert_eq!(e.on_quota(0, 1000, 900), ExecutorStep::WaitThenRetry(102));
    assert!(e.may_call());
    assert_eq!(e.on_call(CallOutcome::Success), ExecutorStep::Return);
    assert_eq!(e.calls(), 2);
}

#[test]
fn second_api_error_is_final() {
    let mut e = RequestExecutor::new();
    e.on_call(CallOutcome::ApiError);
    e.on_quota(0, 10, 10);
    assert_eq!(e.on_call(CallOutcome::ApiError), ExecutorStep::Fail);
    assert_eq!(e.calls(), 2);
    assert!(!e.may_call());
}

#[test]
fn wait_is_two_seconds_past_reset() {
    assert_eq!(rate_limit_wait_secs(100, 90), 12);
    assert_eq!(rate_limit_wait_secs(100, 100), 2);
    assert_eq!(rate_limit_wait_secs(100, 101), 1);
    assert_eq!(rate_limit_wait_secs(100, 200), 0);
    assert_eq!(rate_limit_wait_secs(u64::MAX, 0), u64::MAX);
}
