use apify_client::error::ApifyApiError;
use apify_client::retry::{
    api_error_from_body, ApifyApiErrorRaw, ApifyApiErrorRawWrapper, AttemptOutcome, RetryAction,
    RetryState,
};

/// Drives the engine over scripted outcomes; returns the number of attempts,
/// the waits, and how the call ended.
fn run_script(base: u32, script: &[AttemptOutcome]) -> (usize, Vec<u64>, Result<(), ApifyApiError>) {
    let mut state = RetryState::new(base);
    let mut attempts = 0;
    let mut waits = Vec::new();
    loop {
        if let Err(e) = state.begin_attempt() {
            return (attempts, waits, Err(e));
        }
        let outcome = &script[attempts];
        attempts += 1;
        match state.record(outcome) {
            RetryAction::Wait(ms) => waits.push(ms),
            RetryAction::Deliver => return (attempts, waits, Ok(())),
            RetryAction::ReadErrorBody => {
                return (attempts, waits, Err(ApifyApiError::RawError("error body".to_string())))
            }
            RetryAction::Fail(e) => return (attempts, waits, Err(e)),
        }
    }
}

#[test]
fn two_rate_limits_then_success() {
    let script = [AttemptOutcome::Status(429), AttemptOutcome::Status(429), AttemptOutcome::Status(200)];
    let (attempts, waits, result) = run_script(500, &script);
    assert_eq!(attempts, 3);
    assert_eq!(waits, vec![1000, 2000]);
    assert_eq!(result, Ok(()));
}

#[test]
fn rate_limit_ceiling_stops_before_ninth_attempt() {
    let script: Vec<AttemptOutcome> = (0..9).map(|_| AttemptOutcome::Status(429)).collect();
    let (attempts, waits, result) = run_script(500, &script);
    assert_eq!(attempts, 8);
    assert_eq!(waits.len(), 8);
    assert_eq!(waits[7], 500 * 256);
    assert_eq!(result, Err(ApifyApiError::MaxRateLimitRetriesReached(8)));
}

#[test]
fn server_failures_have_their_own_ceiling() {
    let script: Vec<AttemptOutcome> = (0..10).map(|i| AttemptOutcome::Status(500 + i)).collect();
    let (attempts, waits, result) = run_script(10, &script);
    assert_eq!(attempts, 8);
    assert_eq!(waits, vec![20, 40, 80, 160, 320, 640, 1280, 2560]);
    assert_eq!(result, Err(ApifyApiError::MaxServerFailedRetriesReached(8)));
}

#[test]
fn timeouts_stop_at_five() {
    let script: Vec<AttemptOutcome> = (0..6).map(|_| AttemptOutcome::Timeout).collect();
    let (attempts, waits, result) = run_script(1, &script);
    assert_eq!(attempts, 5);
    assert_eq!(waits, vec![2, 4, 8, 16, 32]);
    assert_eq!(result, Err(ApifyApiError::MaxTimeoutRetriesReached(5)));
}

#[test]
fn counters_are_independent() {
    let script = [
        AttemptOutcome::Status(429),
        AttemptOutcome::Status(503),
        AttemptOutcome::Timeout,
        AttemptOutcome::Status(429),
        AttemptOutcome::Status(204),
    ];
    let (attempts, waits, result) = run_script(100, &script);
    assert_eq!(attempts, 5);
    assert_eq!(waits, vec![200, 200, 200, 400]);
    assert_eq!(result, Ok(()));
}

#[test]
fn largest_base_delay_does_not_overflow() {
    let mut state = RetryState::new(u32::MAX);
    for _ in 0..7 {
        state.record(&AttemptOutcome::Status(429));
    }
    assert_eq!(state.record(&AttemptOutcome::Status(429)), RetryAction::Wait(u32::MAX as u64 * 256));
}

#[test]
fn client_errors_read_the_error_body() {
    for code in [300u16, 400, 404, 428, 430, 499] {
        let mut state = RetryState::new(500);
        assert_eq!(state.record(&AttemptOutcome::Status(code)), RetryAction::ReadErrorBody);
        assert_eq!(state.rate_limit_retries, 0);
    }
}

#[test]
fn unknown_transport_failure_is_api_failure() {
    let mut state = RetryState::new(500);
    let action = state.record(&AttemptOutcome::TransportFailure("connection refused".to_string()));
    assert_eq!(
        action,
        RetryAction::Fail(ApifyApiError::ApiFailure(
            "Uknown error, please create an issue on GitHub! connection refused".to_string()
        ))
    );
}

fn error_body(t: &str, m: &str) -> ApifyApiErrorRawWrapper {
    ApifyApiErrorRawWrapper {
        error: ApifyApiErrorRaw { error_type: t.to_string(), message: m.to_string() },
    }
}

#[test]
fn not_found_body_gives_not_found() {
    let body: serde_json::Value = serde_json::from_str(
        r#"{"error":{"type":"not-found","message":"Dataset was not found"}}"#,
    )
    .unwrap();
    let decoded = error_body(
        body["error"]["type"].as_str().unwrap(),
        body["error"]["message"].as_str().unwrap(),
    );
    assert_eq!(
        api_error_from_body(404, Ok(decoded)),
        ApifyApiError::NotFound("Dataset was not found".to_string())
    );
}

#[test]
fn other_status_gives_raw_error() {
    assert_eq!(
        api_error_from_body(400, Ok(error_body("invalid-input", "Bad name"))),
        ApifyApiError::RawError("Bad name".to_string())
    );
}

#[test]
fn undecodable_error_body_gives_api_failure() {
    assert_eq!(
        api_error_from_body(404, Err("expected value at line 1 column 1".to_string())),
        ApifyApiError::ApiFailure(
            "Apify API did not return correct error format. Something is very wrong. Please contact support@apify.com\nexpected value at line 1 column 1".to_string()
        )
    );
}
