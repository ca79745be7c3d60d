//! The transcription client's decision logic: per-attempt failure
//! classification, the exact error message each failure produces, and the
//! bounded retry policy.
//!
//! One HTTP exchange per attempt is performed by the unverified shell; what
//! it observed comes back as an [`AttemptOutcome`].  Every decision — retry
//! or stop, and with what final result — is made here and verified for every
//! possible outcome value.

use vstd::prelude::*;

use crate::text::{contains_substr, decimal_string, spec_contains, spec_decimal};

verus! {

/// Number of attempts the client makes before giving up.
pub const MAX_ATTEMPTS: usize = 3;

/// Delay between two attempts, in milliseconds.  Used by the shell that
/// drives the retry loop; the policy itself only counts attempts.
pub const RETRY_DELAY_MS: u64 = 2000;

/// What a single transcription attempt yielded, as observed by the shell
/// that performed the HTTP exchange.
pub enum AttemptOutcome {
    /// The service answered with a success status and this transcript.
    Transcript { text: String },
    /// The service answered with a success status but the body could not be
    /// read; `detail` describes the read failure.
    TranscriptUnreadable { detail: String },
    /// The service answered with a non-success HTTP status; the error body
    /// is `None` when it could not be read.
    HttpStatus { code: u16, body: Option<String> },
    /// The request itself failed: connection error or timeout.
    NetworkFailure { timeout: bool, detail: String },
}

/// The message recorded for a transport-level failure.
pub open spec fn spec_network_error_text(timeout: bool, detail: Seq<char>) -> Seq<char> {
    if timeout {
        "Request timed out: "@ + detail
    } else {
        "Network request error: "@ + detail
    }
}

/// The plain message for a non-success HTTP status, before classification.
pub open spec fn spec_status_base_text(code: u16, body: Option<String>) -> Seq<char> {
    match body {
        Option::Some(b) => "API error "@ + spec_decimal(code as nat) + ": "@ + b@,
        Option::None => "API error "@ + spec_decimal(code as nat) + " with unreadable body"@,
    }
}

/// The message for a non-success HTTP status after classification: a
/// malformed-file rejection and an authentication failure are reported
/// distinctly so the user sees an actionable message.
pub open spec fn spec_status_error_text(code: u16, body: Option<String>) -> Seq<char> {
    let base = spec_status_base_text(code, body);
    if code == 400 && spec_contains(base, "Invalid file format"@) {
        "API Error: Invalid audio file format. Ensure it's a valid WAV file. ("@ + base + ")"@
    } else if code == 401 {
        "API Error: Unauthorized (401). Check your API key. ("@ + base + ")"@
    } else {
        base
    }
}

/// The error message a failed attempt records (meaningless for a
/// successful attempt).
pub open spec fn spec_attempt_error_text(o: AttemptOutcome) -> Seq<char> {
    match o {
        AttemptOutcome::Transcript { .. } => Seq::empty(),
        AttemptOutcome::TranscriptUnreadable { detail } => "Failed to read successful response body: "@
            + detail@,
        AttemptOutcome::HttpStatus { code, body } => spec_status_error_text(code, body),
        AttemptOutcome::NetworkFailure { timeout, detail } => spec_network_error_text(
            timeout,
            detail@,
        ),
    }
}

/// Whether an outcome ends the retry loop regardless of attempts left: a
/// transcript (either readable or not) is final, and an authentication
/// failure cannot be cured by retrying.  Network failures and every other
/// HTTP status are retryable.
pub open spec fn spec_attempt_concludes(o: AttemptOutcome) -> bool {
    match o {
        AttemptOutcome::Transcript { .. } => true,
        AttemptOutcome::TranscriptUnreadable { .. } => true,
        AttemptOutcome::HttpStatus { code, .. } => code == 401,
        AttemptOutcome::NetworkFailure { .. } => false,
    }
}

/// The message returned once every attempt has been spent: the most recent
/// error, prefixed to say that retries are over.  Only true exhaustion gets
/// this prefix; a failure that ends the loop early is surfaced as itself.
pub open spec fn spec_exhausted_text(last: Seq<char>) -> Seq<char> {
    "Failed after multiple attempts. Last error: "@ + last
}

/// What one attempt decides, `None` meaning "retry".  `last_attempt` says
/// whether the attempt was the final one allowed.  A terminal value carries
/// the overall success flag and the text (transcript or error message).  An
/// authentication failure aborts the loop at once and is surfaced
/// immediately with its classified message; only spending the last allowed
/// attempt on a retryable failure earns the exhausted-retries prefix.
pub open spec fn spec_step_result(o: AttemptOutcome, last_attempt: bool) -> Option<(bool, Seq<char>)> {
    match o {
        AttemptOutcome::Transcript { text } => Option::Some((true, text@)),
        AttemptOutcome::TranscriptUnreadable { .. } => Option::Some(
            (false, spec_attempt_error_text(o)),
        ),
        _ => if spec_attempt_concludes(o) {
            Option::Some((false, spec_attempt_error_text(o)))
        } else if last_attempt {
            Option::Some((false, spec_exhausted_text(spec_attempt_error_text(o))))
        } else {
            Option::None
        },
    }
}

/// The result of the whole retry loop, started at attempt `i`, when attempt
/// `k` observes `outs[k]`: overall success, final text, and the total number
/// of attempts made.
pub open spec fn spec_run_from(outs: Seq<AttemptOutcome>, i: nat) -> (bool, Seq<char>, nat)
    decreases MAX_ATTEMPTS - i,
{
    match spec_step_result(outs[i as int], i + 1 >= MAX_ATTEMPTS) {
        Option::Some(p) => (p.0, p.1, i + 1),
        Option::None => spec_run_from(outs, i + 1),
    }
}

/// The exec result carries exactly the success flag and text of a spec-level
/// outcome.
pub open spec fn result_matches(res: Result<String, String>, ok: bool, text: Seq<char>) -> bool {
    ((res is Ok) == ok) && (match res {
        Result::Ok(t) => t@ == text,
        Result::Err(e) => e@ == text,
    })
}

fn network_error_message(timeout: bool, detail: &String) -> (r: String)
    ensures
        r@ == spec_network_error_text(timeout, detail@),
{
    let mut m = if timeout {
        "Request timed out: ".to_owned()
    } else {
        "Network request error: ".to_owned()
    };
    m.append(detail.as_str());
    m
}

fn status_error_message(code: u16, body: &Option<String>) -> (r: String)
    ensures
        r@ == spec_status_error_text(code, *body),
{
    let mut base = "API error ".to_owned();
    let code_s = decimal_string(code as u64);
    base.append(code_s.as_str());
    match body {
        Option::Some(b) => {
            base.append(": ");
            base.append(b.as_str());
        },
        Option::None => {
            base.append(" with unreadable body");
        },
    }
    proof {
        assert(base@ == spec_status_base_text(code, *body));
    }
    if code == 400 && contains_substr(base.as_str(), "Invalid file format") {
        let mut m = "API Error: Invalid audio file format. Ensure it's a valid WAV file. (".to_owned();
        m.append(base.as_str());
        m.append(")");
        m
    } else if code == 401 {
        let mut m = "API Error: Unauthorized (401). Check your API key. (".to_owned();
        m.append(base.as_str());
        m.append(")");
        m
    } else {
        base
    }
}

fn exhausted_message(last: &String) -> (r: String)
    ensures
        r@ == spec_exhausted_text(last@),
{
    let mut m = "Failed after multiple attempts. Last error: ".to_owned();
    m.append(last.as_str());
    m
}

/// What the retry loop must do after one attempt.
pub enum RetryStep {
    /// The loop is over; hand this result back.
    Finished(Result<String, String>),
    /// Wait the inter-attempt delay, then make the next attempt.
    RetryAfterDelay,
}

/// Decide what attempt number `attempt_index` (counting from zero) means for
/// the retry loop, given what the attempt observed.
pub fn transcribe_step(outcome: &AttemptOutcome, attempt_index: usize) -> (r: RetryStep)
    requires
        attempt_index < MAX_ATTEMPTS,
    ensures
        match spec_step_result(*outcome, attempt_index + 1 == MAX_ATTEMPTS) {
            Option::Some(p) => r matches RetryStep::Finished(res) && result_matches(res, p.0, p.1),
            Option::None => r is RetryAfterDelay,
        },
{
    let last_attempt = attempt_index + 1 == MAX_ATTEMPTS;
    match outcome {
        AttemptOutcome::Transcript { text } => RetryStep::Finished(Ok(text.clone())),
        AttemptOutcome::TranscriptUnreadable { detail } => {
            let mut m = "Failed to read successful response body: ".to_owned();
            m.append(detail.as_str());
            RetryStep::Finished(Err(m))
        },
        AttemptOutcome::HttpStatus { code, body } => {
            if *code == 401 {
                RetryStep::Finished(Err(status_error_message(*code, body)))
            } else if last_attempt {
                let msg = status_error_message(*code, body);
                RetryStep::Finished(Err(exhausted_message(&msg)))
            } else {
                RetryStep::RetryAfterDelay
            }
        },
        AttemptOutcome::NetworkFailure { timeout, detail } => {
            if last_attempt {
                let msg = network_error_message(*timeout, detail);
                RetryStep::Finished(Err(exhausted_message(&msg)))
            } else {
                RetryStep::RetryAfterDelay
            }
        },
    }
}

/// What a full transcription run reports: the result handed to the worker,
/// and how many attempts were made.
pub struct TranscribeReport {
    pub result: Result<String, String>,
    pub attempts: usize,
}

/// Run the whole retry loop against a script of attempt outcomes: attempt
/// `k` observes `outcomes[k]`.  This is the loop the shell drives against
/// the live service, verified here for every possible script.
pub fn transcribe_script(outcomes: &Vec<AttemptOutcome>) -> (r: TranscribeReport)
    requires
        outcomes@.len() >= MAX_ATTEMPTS,
    ensures
        result_matches(
            r.result,
            spec_run_from(outcomes@, 0).0,
            spec_run_from(outcomes@, 0).1,
        ),
        r.attempts == spec_run_from(outcomes@, 0).2,
{
    let mut i: usize = 0;
    loop
        invariant
            outcomes@.len() >= MAX_ATTEMPTS,
            i < MAX_ATTEMPTS,
            spec_run_from(outcomes@, 0) == spec_run_from(outcomes@, i as nat),
        decreases MAX_ATTEMPTS - i,
    {
        let step = transcribe_step(&outcomes[i], i);
        match step {
            RetryStep::Finished(res) => {
                return TranscribeReport { result: res, attempts: i + 1 };
            },
            RetryStep::RetryAfterDelay => {
                i += 1;
            },
        }
    }
}

/// Two attempts rebuffed by server errors, then a transcript: the client
/// returns the transcript and has made exactly three attempts.
pub proof fn lemma_server_errors_then_success(outs: Seq<AttemptOutcome>)
    requires
        outs.len() >= MAX_ATTEMPTS,
        outs[0] matches AttemptOutcome::HttpStatus { code, .. } && 500 <= code < 600,
        outs[1] matches AttemptOutcome::HttpStatus { code, .. } && 500 <= code < 600,
        outs[2] matches AttemptOutcome::Transcript { .. },
    ensures
        spec_run_from(outs, 0).0,
        outs[2] matches AttemptOutcome::Transcript { text } && spec_run_from(outs, 0).1 == text@,
        spec_run_from(outs, 0).2 == 3,
{
    assert(spec_run_from(outs, 0) == spec_run_from(outs, 1));
    assert(spec_run_from(outs, 1) == spec_run_from(outs, 2));
}

/// An authentication failure on the first attempt stops the loop at once:
/// exactly one attempt, a failure result, and the classified unauthorized
/// message surfaced as itself — not the exhausted-retries presentation.
pub proof fn lemma_auth_failure_stops_retry(outs: Seq<AttemptOutcome>)
    requires
        outs.len() >= MAX_ATTEMPTS,
        outs[0] matches AttemptOutcome::HttpStatus { code, .. } && code == 401,
    ensures
        !spec_run_from(outs, 0).0,
        spec_run_from(outs, 0).2 == 1,
        outs[0] matches AttemptOutcome::HttpStatus { code, body } && spec_run_from(outs, 0).1
            == spec_status_error_text(code, body),
{
}

/// Retries are bounded: a run started at attempt `i` makes at least one
/// further attempt and never more than the allowed total.
pub proof fn lemma_attempts_bounded(outs: Seq<AttemptOutcome>, i: nat)
    requires
        i < MAX_ATTEMPTS,
    ensures
        i < spec_run_from(outs, i).2 <= MAX_ATTEMPTS,
    decreases MAX_ATTEMPTS - i,
{
    if spec_step_result(outs[i as int], i + 1 >= MAX_ATTEMPTS) is None {
        lemma_attempts_bounded(outs, i + 1);
    }
}

/// A successful run returns the transcript of the attempt that succeeded,
/// byte for byte: the final text is exactly what the service sent.
pub proof fn lemma_transcript_is_exact(outs: Seq<AttemptOutcome>, i: nat)
    requires
        i < MAX_ATTEMPTS,
        outs.len() >= MAX_ATTEMPTS,
        spec_run_from(outs, i).0,
    ensures
        ({
            let n = spec_run_from(outs, i).2;
            i < n <= MAX_ATTEMPTS && (outs[n - 1] matches AttemptOutcome::Transcript { text }
                && spec_run_from(outs, i).1 == text@)
        }),
    decreases MAX_ATTEMPTS - i,
{
    if spec_step_result(outs[i as int], i + 1 >= MAX_ATTEMPTS) is None {
        lemma_transcript_is_exact(outs, i + 1);
    }
}

} // verus!
