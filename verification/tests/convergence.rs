use flaps_client::convergence::{
    effective_wait_timeout_secs, run_convergence, RetryDecision, WaitRetry,
};
use flaps_client::error::{FlapsError, RawApiError};
use flaps_client::machine::State;

fn transient() -> FlapsError {
    FlapsError::DesiredStateNotReached {
        desired_state: State::Started,
        raw: RawApiError {
            status_code: 408,
            fly_request_id: None,
            error: "timeout".to_string(),
            message: None,
        },
    }
}

fn not_found() -> FlapsError {
    FlapsError::NotFound(RawApiError {
        status_code: 404,
        fly_request_id: None,
        error: "not found".to_string(),
        message: None,
    })
}

#[test]
fn wait_timeout_is_clamped() {
    assert_eq!(effective_wait_timeout_secs(0), 1);
    assert_eq!(effective_wait_timeout_secs(1), 1);
    assert_eq!(effective_wait_timeout_secs(30_000), 30);
    assert_eq!(effective_wait_timeout_secs(90_000), 60);
    assert_eq!(effective_wait_timeout_secs(1_000_000), 60);
}

#[test]
fn converges_on_attempt_after_transient_failures() {
    for n in 0..4usize {
        let mut outcomes: Vec<Result<(), FlapsError>> = Vec::new();
        for _ in 0..n {
            outcomes.push(Err(transient()));
        }
        outcomes.push(Ok(()));
        let report = run_convergence(60_000, outcomes);
        assert_eq!(report.attempts, n + 1);
        assert!(report.result.is_ok());
        assert!(report.elapsed_ms <= 60_000 + 100);
    }
}

#[test]
fn simulated_time_follows_backoff_schedule() {
    let outcomes = vec![Err(transient()), Err(transient()), Err(transient()), Ok(())];
    let report = run_convergence(60_000, outcomes);
    assert_eq!(report.attempts, 4);
    // 500ms, then 750ms, then 1125ms of sleep
    assert_eq!(report.elapsed_ms, 500 + 750 + 1125);
}

#[test]
fn permanent_error_fails_on_first_attempt() {
    let outcomes = vec![Err(not_found()), Ok(())];
    let report = run_convergence(60_000, outcomes);
    assert_eq!(report.attempts, 1);
    assert_eq!(report.elapsed_ms, 0);
    assert!(matches!(report.result, Err(FlapsError::NotFound(_))));
}

#[test]
fn budget_exhaustion_surfaces_last_transient_error() {
    let outcomes = vec![Err(transient()), Err(transient()), Err(transient()), Ok(())];
    let report = run_convergence(1_000, outcomes);
    // one 500ms sleep fits; a second (750ms) would pass the deadline
    assert_eq!(report.attempts, 2);
    assert!(matches!(report.result, Err(FlapsError::DesiredStateNotReached { .. })));
    assert!(report.elapsed_ms <= 1_000 + 100);
}

#[test]
fn attempt_window_is_capped_at_two_seconds() {
    let retry = WaitRetry::new(60_000);
    assert_eq!(retry.attempt_window_ms(), 2_000);
    let mut retry = WaitRetry::new(1_000);
    retry.advance(900);
    assert_eq!(retry.attempt_window_ms(), 200);
}

#[test]
fn retry_decision_grows_interval_by_half() {
    let mut retry = WaitRetry::new(60_000);
    match retry.on_error(transient()) {
        RetryDecision::RetryAfter { sleep_ms, .. } => assert_eq!(sleep_ms, 500),
        other => panic!("expected a retry, got {:?}", other),
    }
    match retry.on_error(transient()) {
        RetryDecision::RetryAfter { sleep_ms, .. } => assert_eq!(sleep_ms, 750),
        other => panic!("expected a retry, got {:?}", other),
    }
    match retry.on_error(not_found()) {
        RetryDecision::Abort(e) => assert!(matches!(e, FlapsError::NotFound(_))),
        other => panic!("expected an abort, got {:?}", other),
    }
}
