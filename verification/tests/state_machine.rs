use dictate_core::state::{Action, Controller, Event, RecState};

#[test]
fn fresh_controller_is_stopped() {
    let c = Controller::new();
    assert_eq!(c.state(), RecState::Stopped);
}

#[test]
fn press_when_stopped_asks_for_capture_spawn() {
    let mut c = Controller::new();
    let a = c.step(Event::TogglePressed);
    assert_eq!(a, Action::TrySpawnCapture);
    assert_eq!(c.state(), RecState::Stopped);
}

#[test]
fn spawn_success_enters_recording() {
    let mut c = Controller::new();
    c.step(Event::TogglePressed);
    let a = c.step(Event::CaptureSpawned);
    assert_eq!(a, Action::DoNothing);
    assert_eq!(c.state(), RecState::Recording);
}

#[test]
fn spawn_failure_leaves_stopped() {
    let mut c = Controller::new();
    c.step(Event::TogglePressed);
    let a = c.step(Event::CaptureSpawnFailed);
    assert_eq!(a, Action::DoNothing);
    assert_eq!(c.state(), RecState::Stopped);
}

#[test]
fn press_while_recording_starts_worker() {
    let mut c = Controller::new();
    c.step(Event::TogglePressed);
    c.step(Event::CaptureSpawned);
    let a = c.step(Event::TogglePressed);
    assert_eq!(a, Action::StopCaptureAndRunWorker);
    assert_eq!(c.state(), RecState::Processing);
}

#[test]
fn press_while_processing_is_ignored() {
    let mut c = Controller::new();
    c.step(Event::TogglePressed);
    c.step(Event::CaptureSpawned);
    c.step(Event::TogglePressed);
    for _ in 0..5 {
        let a = c.step(Event::TogglePressed);
        assert_eq!(a, Action::DoNothing);
        assert_eq!(c.state(), RecState::Processing);
    }
}

#[test]
fn worker_completion_returns_to_stopped() {
    let mut c = Controller::new();
    c.step(Event::TogglePressed);
    c.step(Event::CaptureSpawned);
    c.step(Event::TogglePressed);
    let a = c.step(Event::WorkerFinished);
    assert_eq!(a, Action::PublishOutcome);
    assert_eq!(c.state(), RecState::Stopped);
}

#[test]
fn arbitrary_press_storm_stays_in_defined_states() {
    let mut c = Controller::new();
    for i in 0..50 {
        let _ = c.step(Event::TogglePressed);
        let s = c.state();
        assert!(
            s == RecState::Stopped || s == RecState::Recording || s == RecState::Processing
        );
        if i % 3 == 0 && s == RecState::Stopped {
            c.step(Event::CaptureSpawned);
        }
    }
}
