//! The background worker: validates the captured artifact, runs the
//! transcription client, demands cleanup on every path, and builds the
//! completion that is scheduled back onto the interactive thread.

use vstd::prelude::*;

use crate::client::{
    result_matches, spec_run_from, transcribe_script, AttemptOutcome, MAX_ATTEMPTS,
};
use crate::state::{Controller, Event, RecState};
use crate::text::{decimal_string, spec_decimal};

verus! {

/// What the worker can observe of the captured audio file.
pub enum ArtifactStatus {
    /// No file at the artifact path.
    Missing,
    /// The file exists but its metadata could not be read.
    Unreadable { detail: String },
    /// The file exists and has this size in bytes.
    Present { size: u64 },
}

/// Size limits for a plausible artifact.  The defaults are hand-tuned
/// constants: below the minimum a capture is likely empty or corrupt, above
/// the maximum the service rejects the payload.
pub struct WorkerConfig {
    pub min_artifact_bytes: u64,
    pub max_artifact_bytes: u64,
}

impl WorkerConfig {
    /// The standard limits.
    pub fn standard() -> (c: WorkerConfig)
        ensures
            c.min_artifact_bytes == crate::MIN_ARTIFACT_BYTES,
            c.max_artifact_bytes == crate::MAX_ARTIFACT_BYTES,
    {
        WorkerConfig {
            min_artifact_bytes: crate::MIN_ARTIFACT_BYTES,
            max_artifact_bytes: crate::MAX_ARTIFACT_BYTES,
        }
    }
}

/// The validation verdict on an artifact: `None` when it may be sent, and
/// otherwise the exact user-visible message explaining why not.
pub open spec fn spec_validation_error(a: ArtifactStatus, min: u64, max: u64) -> Option<
    Seq<char>,
> {
    match a {
        ArtifactStatus::Missing => Option::Some(
            "Error: Recorded file /tmp/whisper_record.wav not found!"@,
        ),
        ArtifactStatus::Unreadable { detail } => Option::Some(
            "Error accessing recorded file metadata: "@ + detail@,
        ),
        ArtifactStatus::Present { size } => if size < min {
            Option::Some(
                "Error: Recorded file too small ("@ + spec_decimal(size as nat)
                    + " bytes). Likely empty or recording failed."@,
            )
        } else if size > max {
            Option::Some(
                "Error: Audio file too large ("@ + spec_decimal(size as nat)
                    + " bytes). Maximum is 25 MB."@,
            )
        } else {
            Option::None
        },
    }
}

/// Check the artifact against the limits; on rejection return the exact
/// message the user sees.
pub fn validate_artifact(a: &ArtifactStatus, cfg: &WorkerConfig) -> (r: Result<(), String>)
    ensures
        (r is Ok) == (spec_validation_error(
            *a,
            cfg.min_artifact_bytes,
            cfg.max_artifact_bytes,
        ) is None),
        r matches Err(m) ==> spec_validation_error(*a, cfg.min_artifact_bytes, cfg.max_artifact_bytes)
            matches Some(t) && m@ == t,
{
    match a {
        ArtifactStatus::Missing => Err(
            "Error: Recorded file /tmp/whisper_record.wav not found!".to_owned(),
        ),
        ArtifactStatus::Unreadable { detail } => {
            let mut m = "Error accessing recorded file metadata: ".to_owned();
            m.append(detail.as_str());
            Err(m)
        },
        ArtifactStatus::Present { size } => {
            if *size < cfg.min_artifact_bytes {
                let mut m = "Error: Recorded file too small (".to_owned();
                let s = decimal_string(*size);
                m.append(s.as_str());
                m.append(" bytes). Likely empty or recording failed.");
                Err(m)
            } else if *size > cfg.max_artifact_bytes {
                let mut m = "Error: Audio file too large (".to_owned();
                let s = decimal_string(*size);
                m.append(s.as_str());
                m.append(" bytes). Maximum is 25 MB.");
                Err(m)
            } else {
                Ok(())
            }
        },
    }
}

/// The worker's overall outcome for an artifact and a script of attempt
/// outcomes: success flag, final text, and attempts made (zero when
/// validation rejected the artifact before any network call).
pub open spec fn spec_worker_outcome(
    a: ArtifactStatus,
    min: u64,
    max: u64,
    outs: Seq<AttemptOutcome>,
) -> (bool, Seq<char>, nat) {
    match spec_validation_error(a, min, max) {
        Option::Some(m) => (false, m, 0),
        Option::None => spec_run_from(outs, 0),
    }
}

/// What one worker run reports back.
pub struct WorkerReport {
    /// Transcript on success, human-readable message on failure.
    pub result: Result<String, String>,
    /// Number of network attempts made; zero when validation failed.
    pub attempts: usize,
    /// Instruction to the shell: remove the artifact.  Always set — cleanup
    /// happens on every exit path, success or failure.
    pub delete_artifact: bool,
}

/// One worker run: validate the artifact, and only if it passes, run the
/// transcription client over the script of attempt outcomes.  The artifact
/// is ordered deleted on every path.
pub fn run_worker(
    artifact: &ArtifactStatus,
    cfg: &WorkerConfig,
    outcomes: &Vec<AttemptOutcome>,
) -> (r: WorkerReport)
    requires
        outcomes@.len() >= MAX_ATTEMPTS,
    ensures
        r.delete_artifact,
        result_matches(
            r.result,
            spec_worker_outcome(
                *artifact,
                cfg.min_artifact_bytes,
                cfg.max_artifact_bytes,
                outcomes@,
            ).0,
            spec_worker_outcome(
                *artifact,
                cfg.min_artifact_bytes,
                cfg.max_artifact_bytes,
                outcomes@,
            ).1,
        ),
        r.attempts == spec_worker_outcome(
            *artifact,
            cfg.min_artifact_bytes,
            cfg.max_artifact_bytes,
            outcomes@,
        ).2,
{
    match validate_artifact(artifact, cfg) {
        Err(m) => WorkerReport { result: Err(m), attempts: 0, delete_artifact: true },
        Ok(()) => {
            let report = transcribe_script(outcomes);
            WorkerReport {
                result: report.result,
                attempts: report.attempts,
                delete_artifact: true,
            }
        },
    }
}

/// What the completion callback applies on the interactive thread.
pub struct Completion {
    /// Text for the transcript area: the transcript, or the error message.
    pub transcript_text: String,
    /// Short status line: `Idle` after success, `Error` after failure.
    pub status_text: String,
    /// On success, the exact text to hand to the clipboard sink.
    pub clipboard_payload: Option<String>,
}

/// Turn the worker's result into the updates the interactive thread applies:
/// the clipboard receives the transcript exactly when the run succeeded, and
/// then receives it unchanged.
pub fn completion_of(result: Result<String, String>) -> (c: Completion)
    ensures
        result matches Ok(t) ==> c.clipboard_payload matches Some(p) && p@ == t@
            && c.transcript_text@ == t@ && c.status_text@ == "Idle"@,
        result matches Err(e) ==> c.clipboard_payload is None && c.transcript_text@ == e@
            && c.status_text@ == "Error"@,
{
    match result {
        Ok(t) => {
            let payload = t.clone();
            Completion {
                transcript_text: t,
                status_text: "Idle".to_owned(),
                clipboard_payload: Some(payload),
            }
        },
        Err(e) => Completion {
            transcript_text: e,
            status_text: "Error".to_owned(),
            clipboard_payload: None,
        },
    }
}

/// The whole processing phase as the interactive thread sees it: the worker
/// runs, its result becomes a completion, and the lifecycle returns to
/// Stopped — the only way it ever leaves Processing.
pub fn process_recording(
    c: &mut Controller,
    artifact: &ArtifactStatus,
    cfg: &WorkerConfig,
    outcomes: &Vec<AttemptOutcome>,
) -> (comp: Completion)
    requires
        old(c).state == RecState::Processing,
        outcomes@.len() >= MAX_ATTEMPTS,
    ensures
        final(c).state == RecState::Stopped,
        ({
            let o = spec_worker_outcome(
                *artifact,
                cfg.min_artifact_bytes,
                cfg.max_artifact_bytes,
                outcomes@,
            );
            (o.0 ==> (comp.clipboard_payload matches Some(p) && p@ == o.1
                && comp.transcript_text@ == o.1 && comp.status_text@ == "Idle"@)) && (!o.0
                ==> comp.clipboard_payload is None && comp.transcript_text@ == o.1
                && comp.status_text@ == "Error"@)
        }),
{
    let report = run_worker(artifact, cfg, outcomes);
    let comp = completion_of(report.result);
    let _ = c.step(Event::WorkerFinished);
    comp
}

/// Round trip: when a cycle succeeds, the text handed to the clipboard sink
/// is exactly the transcript the service returned on the attempt that
/// succeeded — no truncation, no mutation.
pub proof fn lemma_clipboard_round_trip(
    a: ArtifactStatus,
    min: u64,
    max: u64,
    outs: Seq<AttemptOutcome>,
)
    requires
        outs.len() >= MAX_ATTEMPTS,
        spec_worker_outcome(a, min, max, outs).0,
    ensures
        ({
            let o = spec_worker_outcome(a, min, max, outs);
            1 <= o.2 <= MAX_ATTEMPTS && (outs[o.2 - 1] matches AttemptOutcome::Transcript { text }
                && o.1 == text@)
        }),
{
    crate::client::lemma_transcript_is_exact(outs, 0);
}

/// A rejected artifact is still cleaned up, and rejection happens before
/// any network attempt: the worker orders deletion and makes zero attempts.
pub proof fn lemma_rejected_artifact_makes_no_attempt(
    a: ArtifactStatus,
    min: u64,
    max: u64,
    outs: Seq<AttemptOutcome>,
)
    requires
        spec_validation_error(a, min, max) is Some,
    ensures
        !spec_worker_outcome(a, min, max, outs).0,
        spec_worker_outcome(a, min, max, outs).2 == 0,
        spec_worker_outcome(a, min, max, outs).1 == spec_validation_error(a, min, max)->Some_0,
{
}

} // verus!
