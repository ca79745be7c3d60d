use dictate_core::client::AttemptOutcome;
use dictate_core::state::{Controller, Event, RecState};
use dictate_core::worker::{
    completion_of, process_recording, run_worker, validate_artifact, ArtifactStatus, WorkerConfig,
};
use dictate_core::{MAX_ARTIFACT_BYTES, MIN_ARTIFACT_BYTES};

fn dummy_script() -> Vec<AttemptOutcome> {
    vec![
        AttemptOutcome::NetworkFailure { timeout: false, detail: "unused".to_string() },
        AttemptOutcome::NetworkFailure { timeout: false, detail: "unused".to_string() },
        AttemptOutcome::NetworkFailure { timeout: false, detail: "unused".to_string() },
    ]
}

#[test]
fn standard_limits_are_the_documented_constants() {
    let cfg = WorkerConfig::standard();
    assert_eq!(cfg.min_artifact_bytes, 4096);
    assert_eq!(cfg.max_artifact_bytes, 25 * 1024 * 1024);
    assert_eq!(MIN_ARTIFACT_BYTES, 4096);
    assert_eq!(MAX_ARTIFACT_BYTES, 26214400);
}

#[test]
fn missing_artifact_is_rejected_with_its_message() {
    let cfg = WorkerConfig::standard();
    let r = validate_artifact(&ArtifactStatus::Missing, &cfg);
    assert_eq!(
        r,
        Err("Error: Recorded file /tmp/whisper_record.wav not found!".to_string())
    );
}

#[test]
fn unreadable_metadata_is_rejected_with_detail() {
    let cfg = WorkerConfig::standard();
    let r = validate_artifact(
        &ArtifactStatus::Unreadable { detail: "permission denied".to_string() },
        &cfg,
    );
    assert_eq!(
        r,
        Err("Error accessing recorded file metadata: permission denied".to_string())
    );
}

#[test]
fn byte_4095_is_too_small_and_4096_is_accepted() {
    let cfg = WorkerConfig::standard();
    let small = validate_artifact(&ArtifactStatus::Present { size: 4095 }, &cfg);
    assert_eq!(
        small,
        Err("Error: Recorded file too small (4095 bytes). Likely empty or recording failed."
            .to_string())
    );
    let ok = validate_artifact(&ArtifactStatus::Present { size: 4096 }, &cfg);
    assert_eq!(ok, Ok(()));
}

#[test]
fn twenty_six_megabytes_is_too_large() {
    let cfg = WorkerConfig::standard();
    let r = validate_artifact(
        &ArtifactStatus::Present { size: 26 * 1024 * 1024 },
        &cfg,
    );
    assert_eq!(
        r,
        Err("Error: Audio file too large (27262976 bytes). Maximum is 25 MB.".to_string())
    );
    let edge = validate_artifact(&ArtifactStatus::Present { size: 25 * 1024 * 1024 }, &cfg);
    assert_eq!(edge, Ok(()));
}

#[test]
fn too_small_artifact_fails_with_no_attempt_and_cleanup() {
    let cfg = WorkerConfig::standard();
    let r = run_worker(&ArtifactStatus::Present { size: 4095 }, &cfg, &dummy_script());
    assert!(r.result.is_err());
    assert_eq!(r.attempts, 0);
    assert!(r.delete_artifact);
}

#[test]
fn too_large_artifact_fails_with_no_attempt_and_cleanup() {
    let cfg = WorkerConfig::standard();
    let r = run_worker(
        &ArtifactStatus::Present { size: 26 * 1024 * 1024 },
        &cfg,
        &dummy_script(),
    );
    assert_eq!(
        r.result,
        Err("Error: Audio file too large (27262976 bytes). Maximum is 25 MB.".to_string())
    );
    assert_eq!(r.attempts, 0);
    assert!(r.delete_artifact);
}

#[test]
fn worker_orders_cleanup_on_success_too() {
    let cfg = WorkerConfig::standard();
    let script = vec![
        AttemptOutcome::Transcript { text: "done".to_string() },
        AttemptOutcome::NetworkFailure { timeout: false, detail: "unused".to_string() },
        AttemptOutcome::NetworkFailure { timeout: false, detail: "unused".to_string() },
    ];
    let r = run_worker(&ArtifactStatus::Present { size: 8192 }, &cfg, &script);
    assert_eq!(r.result, Ok("done".to_string()));
    assert_eq!(r.attempts, 1);
    assert!(r.delete_artifact);
}

#[test]
fn successful_completion_publishes_and_goes_idle() {
    let c = completion_of(Ok("exact transcript".to_string()));
    assert_eq!(c.transcript_text, "exact transcript");
    assert_eq!(c.status_text, "Idle");
    assert_eq!(c.clipboard_payload, Some("exact transcript".to_string()));
}

#[test]
fn failed_completion_shows_error_and_skips_clipboard() {
    let c = completion_of(Err("something broke".to_string()));
    assert_eq!(c.transcript_text, "something broke");
    assert_eq!(c.status_text, "Error");
    assert_eq!(c.clipboard_payload, None);
}

#[test]
fn full_cycle_one_megabyte_hello_world() {
    let mut controller = Controller::new();
    controller.step(Event::TogglePressed);
    controller.step(Event::CaptureSpawned);
    controller.step(Event::TogglePressed);
    assert_eq!(controller.state(), RecState::Processing);

    let cfg = WorkerConfig::standard();
    let script = vec![
        AttemptOutcome::Transcript { text: "hello world".to_string() },
        AttemptOutcome::NetworkFailure { timeout: false, detail: "unused".to_string() },
        AttemptOutcome::NetworkFailure { timeout: false, detail: "unused".to_string() },
    ];
    let comp = process_recording(
        &mut controller,
        &ArtifactStatus::Present { size: 1024 * 1024 },
        &cfg,
        &script,
    );
    assert_eq!(controller.state(), RecState::Stopped);
    assert_eq!(comp.transcript_text, "hello world");
    assert_eq!(comp.status_text, "Idle");
    assert_eq!(comp.clipboard_payload, Some("hello world".to_string()));
}

#[test]
fn full_cycle_with_too_small_file_still_resets_state() {
    let mut controller = Controller::new();
    controller.step(Event::TogglePressed);
    controller.step(Event::CaptureSpawned);
    controller.step(Event::TogglePressed);

    let cfg = WorkerConfig::standard();
    let comp = process_recording(
        &mut controller,
        &ArtifactStatus::Present { size: 4095 },
        &cfg,
        &dummy_script(),
    );
    assert_eq!(controller.state(), RecState::Stopped);
    assert_eq!(comp.status_text, "Error");
    assert_eq!(
        comp.transcript_text,
        "Error: Recorded file too small (4095 bytes). Likely empty or recording failed."
    );
    assert_eq!(comp.clipboard_payload, None);
}
