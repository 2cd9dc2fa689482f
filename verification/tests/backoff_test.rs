use tproxy::backoff::{delay_ms, run_accept_trace, AcceptOutcome, AcceptRetry, RetryDecision};

#[test]
fn delay_doubles_from_the_base() {
    assert_eq!(delay_ms(0), 1000);
    assert_eq!(delay_ms(1), 2000);
    assert_eq!(delay_ms(2), 4000);
    assert_eq!(delay_ms(5), 32000);
}

#[test]
fn delay_is_capped() {
    assert_eq!(delay_ms(6), 60000);
    assert_eq!(delay_ms(7), 60000);
    assert_eq!(delay_ms(63), 60000);
}

#[test]
fn first_failures_retry_with_growing_delays() {
    let mut retry = AcceptRetry::new();
    assert_eq!(retry.on_failure(7), RetryDecision::Retry { delay_ms: 1007 });
    assert_eq!(retry.on_failure(0), RetryDecision::Retry { delay_ms: 2000 });
    assert_eq!(retry.on_failure(999), RetryDecision::Retry { delay_ms: 4999 });
    assert_eq!(retry.consecutive_failures, 3);
}

#[test]
fn success_resets_the_budget() {
    let mut retry = AcceptRetry::new();
    for _ in 0..10 {
        assert!(matches!(retry.on_failure(0), RetryDecision::Retry { .. }));
    }
    retry.on_success();
    assert_eq!(retry.consecutive_failures, 0);
    assert_eq!(retry.on_failure(0), RetryDecision::Retry { delay_ms: 1000 });
}

#[test]
fn the_sixty_fourth_consecutive_failure_is_fatal() {
    let mut retry = AcceptRetry::new();
    for _ in 0..63 {
        assert!(matches!(retry.on_failure(0), RetryDecision::Retry { .. }));
    }
    assert_eq!(retry.on_failure(0), RetryDecision::Fatal);
}

#[test]
fn trace_with_failures_within_budget_is_accepted() {
    let mut attempts = vec![false; 63];
    attempts.push(true);
    assert_eq!(run_accept_trace(&attempts), AcceptOutcome::Accepted);
}

#[test]
fn trace_of_sixty_four_failures_is_fatal() {
    let attempts = vec![false; 64];
    assert_eq!(run_accept_trace(&attempts), AcceptOutcome::Fatal);
    let mut late_success = vec![false; 64];
    late_success.push(true);
    assert_eq!(run_accept_trace(&late_success), AcceptOutcome::Fatal);
}

#[test]
fn short_trace_of_failures_stays_undecided() {
    let attempts = vec![false; 10];
    assert_eq!(run_accept_trace(&attempts), AcceptOutcome::Undecided);
    assert_eq!(run_accept_trace(&Vec::new()), AcceptOutcome::Undecided);
}

#[test]
fn immediate_success_is_accepted() {
    assert_eq!(run_accept_trace(&vec![true]), AcceptOutcome::Accepted);
}
