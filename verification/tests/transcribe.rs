use dictate_core::client::{
    transcribe_script, transcribe_step, AttemptOutcome, RetryStep, MAX_ATTEMPTS, RETRY_DELAY_MS,
};

fn net(detail: &str) -> AttemptOutcome {
    AttemptOutcome::NetworkFailure { timeout: false, detail: detail.to_string() }
}

#[test]
fn constants_match_the_policy() {
    assert_eq!(MAX_ATTEMPTS, 3);
    assert_eq!(RETRY_DELAY_MS, 2000);
}

#[test]
fn two_server_errors_then_success_takes_three_attempts() {
    let outcomes = vec![
        AttemptOutcome::HttpStatus { code: 500, body: Some("boom".to_string()) },
        AttemptOutcome::HttpStatus { code: 503, body: Some("still down".to_string()) },
        AttemptOutcome::Transcript { text: "the quick brown fox".to_string() },
    ];
    let r = transcribe_script(&outcomes);
    assert_eq!(r.attempts, 3);
    assert_eq!(r.result, Ok("the quick brown fox".to_string()));
}

#[test]
fn auth_failure_aborts_after_one_attempt() {
    let outcomes = vec![
        AttemptOutcome::HttpStatus { code: 401, body: Some("bad key".to_string()) },
        net("unused"),
        net("unused"),
    ];
    let r = transcribe_script(&outcomes);
    assert_eq!(r.attempts, 1);
    assert_eq!(
        r.result,
        Err("API Error: Unauthorized (401). Check your API key. (API error 401: bad key)"
            .to_string())
    );
}

#[test]
fn success_on_first_attempt_returns_text_unchanged() {
    let outcomes = vec![
        AttemptOutcome::Transcript { text: "hello world".to_string() },
        net("unused"),
        net("unused"),
    ];
    let r = transcribe_script(&outcomes);
    assert_eq!(r.attempts, 1);
    assert_eq!(r.result, Ok("hello world".to_string()));
}

#[test]
fn network_failures_exhaust_attempts_with_last_error() {
    let outcomes = vec![net("no route"), net("no route"), net("connection refused")];
    let r = transcribe_script(&outcomes);
    assert_eq!(r.attempts, 3);
    assert_eq!(
        r.result,
        Err("Failed after multiple attempts. Last error: Network request error: \
             connection refused"
            .to_string())
    );
}

#[test]
fn timeout_is_reported_as_timeout() {
    let outcomes = vec![
        net("flaky"),
        net("flaky"),
        AttemptOutcome::NetworkFailure { timeout: true, detail: "deadline".to_string() },
    ];
    let r = transcribe_script(&outcomes);
    assert_eq!(r.attempts, 3);
    assert_eq!(
        r.result,
        Err("Failed after multiple attempts. Last error: Request timed out: deadline"
            .to_string())
    );
}

#[test]
fn malformed_file_rejection_gets_actionable_message() {
    let bad = AttemptOutcome::HttpStatus {
        code: 400,
        body: Some("Invalid file format: not a WAV".to_string()),
    };
    let outcomes = vec![
        bad,
        AttemptOutcome::HttpStatus {
            code: 400,
            body: Some("Invalid file format: not a WAV".to_string()),
        },
        AttemptOutcome::HttpStatus {
            code: 400,
            body: Some("Invalid file format: not a WAV".to_string()),
        },
    ];
    let r = transcribe_script(&outcomes);
    assert_eq!(r.attempts, 3);
    assert_eq!(
        r.result,
        Err("Failed after multiple attempts. Last error: API Error: Invalid audio file \
             format. Ensure it's a valid WAV file. (API error 400: Invalid file format: \
             not a WAV)"
            .to_string())
    );
}

#[test]
fn generic_client_error_is_retried_unlike_auth_failure() {
    let outcomes = vec![
        AttemptOutcome::HttpStatus { code: 404, body: Some("gone".to_string()) },
        AttemptOutcome::Transcript { text: "recovered".to_string() },
        net("unused"),
    ];
    let r = transcribe_script(&outcomes);
    assert_eq!(r.attempts, 2);
    assert_eq!(r.result, Ok("recovered".to_string()));
}

#[test]
fn unreadable_error_body_is_named_in_the_message() {
    let outcomes = vec![
        AttemptOutcome::HttpStatus { code: 502, body: None },
        AttemptOutcome::HttpStatus { code: 502, body: None },
        AttemptOutcome::HttpStatus { code: 502, body: None },
    ];
    let r = transcribe_script(&outcomes);
    assert_eq!(r.attempts, 3);
    assert_eq!(
        r.result,
        Err("Failed after multiple attempts. Last error: API error 502 with unreadable body"
            .to_string())
    );
}

#[test]
fn unreadable_success_body_fails_without_retry_prefix() {
    let outcomes = vec![
        AttemptOutcome::TranscriptUnreadable { detail: "stream cut".to_string() },
        net("unused"),
        net("unused"),
    ];
    let r = transcribe_script(&outcomes);
    assert_eq!(r.attempts, 1);
    assert_eq!(
        r.result,
        Err("Failed to read successful response body: stream cut".to_string())
    );
}

#[test]
fn step_retries_midway_but_concludes_on_last_attempt() {
    let flaky = net("offline");
    match transcribe_step(&flaky, 0) {
        RetryStep::RetryAfterDelay => {}
        RetryStep::Finished(_) => panic!("first network failure must be retried"),
    }
    match transcribe_step(&flaky, MAX_ATTEMPTS - 1) {
        RetryStep::Finished(Err(e)) => {
            assert_eq!(
                e,
                "Failed after multiple attempts. Last error: Network request error: offline"
            );
        }
        _ => panic!("last attempt must conclude"),
    }
}
