use fee_escalator::retry::{
    run_retry, RetryDecision, RetryPolicy, RetryState, DEFAULT_INITIAL_DELAY_MS,
    DEFAULT_MAX_RETRIES,
};

#[test]
fn standard_policy_values() {
    let p = RetryPolicy::standard();
    assert_eq!(p.max_retries, DEFAULT_MAX_RETRIES);
    assert_eq!(p.initial_delay_ms, DEFAULT_INITIAL_DELAY_MS);
    assert_eq!(p.max_retries, 5);
    assert_eq!(p.initial_delay_ms, 1000);
}

#[test]
fn immediate_success_sleeps_nothing() {
    let p = RetryPolicy::standard();
    let outcomes: Vec<Result<u32, String>> = vec![
        Ok(42),
        Err("unused".to_string()),
        Err("unused".to_string()),
        Err("unused".to_string()),
        Err("unused".to_string()),
        Err("unused".to_string()),
    ];
    let (r, slept) = run_retry(p, outcomes);
    assert_eq!(r, Ok(42));
    assert_eq!(slept, 0);
}

#[test]
fn succeeds_after_two_failures_sleeps_first_two_delays() {
    let p = RetryPolicy::standard();
    let outcomes: Vec<Result<u32, String>> = vec![
        Err("first".to_string()),
        Err("second".to_string()),
        Ok(7),
        Err("unused".to_string()),
        Err("unused".to_string()),
        Err("unused".to_string()),
    ];
    let (r, slept) = run_retry(p, outcomes);
    assert_eq!(r, Ok(7));
    assert_eq!(slept, 1000 + 2000);
}

#[test]
fn succeeds_on_last_attempt_after_five_failures() {
    let p = RetryPolicy::standard();
    let outcomes: Vec<Result<u32, String>> = vec![
        Err("e0".to_string()),
        Err("e1".to_string()),
        Err("e2".to_string()),
        Err("e3".to_string()),
        Err("e4".to_string()),
        Ok(9),
    ];
    let (r, slept) = run_retry(p, outcomes);
    assert_eq!(r, Ok(9));
    assert_eq!(slept, 1000 + 2000 + 4000 + 8000 + 16000);
}

#[test]
fn all_attempts_fail_returns_last_error_unchanged() {
    let p = RetryPolicy::standard();
    let outcomes: Vec<Result<u32, String>> = (0..6).map(|i| Err(format!("error {}", i))).collect();
    let (r, slept) = run_retry(p, outcomes);
    assert_eq!(r, Err("error 5".to_string()));
    assert_eq!(slept, 1000 + 2000 + 4000 + 8000 + 16000);
}

#[test]
fn state_machine_doubles_delay_then_gives_up() {
    let mut st = RetryState::new(RetryPolicy { max_retries: 2, initial_delay_ms: 10 });
    assert_eq!(st.on_failure(), RetryDecision::Sleep(10));
    assert_eq!(st.on_failure(), RetryDecision::Sleep(20));
    assert_eq!(st.on_failure(), RetryDecision::GiveUp);
    assert_eq!(st.on_failure(), RetryDecision::GiveUp);
}

#[test]
fn zero_retries_policy_gives_up_after_first_failure() {
    let p = RetryPolicy { max_retries: 0, initial_delay_ms: 1000 };
    let outcomes: Vec<Result<u32, String>> = vec![Err("only".to_string())];
    let (r, slept) = run_retry(p, outcomes);
    assert_eq!(r, Err("only".to_string()));
    assert_eq!(slept, 0);
}
