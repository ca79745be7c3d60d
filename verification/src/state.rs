//! The recording lifecycle: a tri-state machine owned by the interactive
//! thread, driven by button presses and by reports from the environment
//! (capture-process spawn results, worker completion).
//!
//! The controller only decides; the unverified shell performs the actions it
//! returns and feeds the outcome back as the next event.

use vstd::prelude::*;

verus! {

/// The lifecycle of one recording: idle, capturing audio, or waiting for the
/// background worker to finish a transcription.
#[derive(Clone, Copy, PartialEq, Eq, Structural, Debug)]
pub enum RecState {
    Stopped,
    Recording,
    Processing,
}

/// What the environment tells the controller.
#[derive(Clone, Copy, PartialEq, Eq, Structural, Debug)]
pub enum Event {
    /// The user pressed the record button.
    TogglePressed,
    /// The audio capture process was spawned and is running.
    CaptureSpawned,
    /// The audio capture process could not be started.
    CaptureSpawnFailed,
    /// The background worker finished, with success or failure.
    WorkerFinished,
}

/// What the caller must do after a controller step.
#[derive(Clone, Copy, PartialEq, Eq, Structural, Debug)]
pub enum Action {
    /// Nothing: the press was ignored or the event needed no side effect.
    DoNothing,
    /// Try to spawn the audio capture process, then report the outcome as
    /// `CaptureSpawned` or `CaptureSpawnFailed`.
    TrySpawnCapture,
    /// Signal the capture process to stop and start the background worker;
    /// report its completion as `WorkerFinished`.
    StopCaptureAndRunWorker,
    /// Publish the worker's outcome: update status and transcript, and on
    /// success hand the text to the clipboard sink.
    PublishOutcome,
}

/// The transition function of the controller: next state and required action
/// for a state and an event.  Events that the protocol cannot produce in a
/// state (a spawn report while recording, a worker report while stopped)
/// change nothing.
pub open spec fn spec_step(s: RecState, e: Event) -> (RecState, Action) {
    match (s, e) {
        (RecState::Stopped, Event::TogglePressed) => (RecState::Stopped, Action::TrySpawnCapture),
        (RecState::Stopped, Event::CaptureSpawned) => (RecState::Recording, Action::DoNothing),
        (RecState::Stopped, Event::CaptureSpawnFailed) => (RecState::Stopped, Action::DoNothing),
        (RecState::Recording, Event::TogglePressed) => (
            RecState::Processing,
            Action::StopCaptureAndRunWorker,
        ),
        (RecState::Processing, Event::TogglePressed) => (RecState::Processing, Action::DoNothing),
        (RecState::Processing, Event::WorkerFinished) => (RecState::Stopped, Action::PublishOutcome),
        (_, _) => (s, Action::DoNothing),
    }
}

/// Owns the shared lifecycle state.  The interactive thread holds exclusive
/// access while stepping it, and is the only thread that ever mutates it; the
/// worker reaches it only through a callback scheduled back onto that thread.
pub struct Controller {
    pub state: RecState,
}

impl Controller {
    /// A fresh controller starts idle.
    pub fn new() -> (c: Controller)
        ensures
            c.state == RecState::Stopped,
    {
        Controller { state: RecState::Stopped }
    }

    /// The state, for cheap read-only checks such as gating the refine
    /// affordance.
    pub fn state(&self) -> (s: RecState)
        ensures
            s == self.state,
    {
        self.state
    }

    /// Advance the machine by one event and say what must be done next.
    pub fn step(&mut self, e: Event) -> (a: Action)
        ensures
            final(self).state == spec_step(old(self).state, e).0,
            a == spec_step(old(self).state, e).1,
    {
        let (next, action) = match (self.state, e) {
            (RecState::Stopped, Event::TogglePressed) => (
                RecState::Stopped,
                Action::TrySpawnCapture,
            ),
            (RecState::Stopped, Event::CaptureSpawned) => (RecState::Recording, Action::DoNothing),
            (RecState::Stopped, Event::CaptureSpawnFailed) => (
                RecState::Stopped,
                Action::DoNothing,
            ),
            (RecState::Recording, Event::TogglePressed) => (
                RecState::Processing,
                Action::StopCaptureAndRunWorker,
            ),
            (RecState::Processing, Event::TogglePressed) => (
                RecState::Processing,
                Action::DoNothing,
            ),
            (RecState::Processing, Event::WorkerFinished) => (
                RecState::Stopped,
                Action::PublishOutcome,
            ),
            (s, _) => (s, Action::DoNothing),
        };
        self.state = next;
        action
    }
}

/// The state after a sequence of `n` button presses, each applied through the
/// transition function, with no other event in between.
pub open spec fn run_toggles(s: RecState, n: nat) -> RecState
    decreases n,
{
    if n == 0 {
        s
    } else {
        run_toggles(spec_step(s, Event::TogglePressed).0, (n - 1) as nat)
    }
}

/// However many times the button is pressed, the state stays one of the
/// three defined values — the machine never reaches an undefined state.
pub proof fn lemma_toggle_presses_stay_defined(s: RecState, n: nat)
    ensures
        run_toggles(s, n) == RecState::Stopped || run_toggles(s, n) == RecState::Recording
            || run_toggles(s, n) == RecState::Processing,
    decreases n,
{
    if n > 0 {
        lemma_toggle_presses_stay_defined(spec_step(s, Event::TogglePressed).0, (n - 1) as nat);
    }
}

/// A press while Processing changes nothing and starts no second worker: the
/// state stays Processing and the required action is to do nothing at all.
pub proof fn lemma_press_while_processing_is_noop(s: RecState)
    requires
        s == RecState::Processing,
    ensures
        spec_step(s, Event::TogglePressed).0 == s,
        spec_step(s, Event::TogglePressed).1 == Action::DoNothing,
{
}

/// A failed capture spawn leaves the machine Stopped, never Recording: the
/// press alone does not enter Recording, and the failure report keeps the
/// state Stopped.
pub proof fn lemma_spawn_failure_leaves_stopped()
    ensures
        spec_step(RecState::Stopped, Event::TogglePressed).0 == RecState::Stopped,
        spec_step(RecState::Stopped, Event::CaptureSpawnFailed).0 == RecState::Stopped,
{
}

/// Leaving Processing for Stopped happens only on worker completion, never
/// by direct user input: any step out of Processing that ends Stopped was a
/// `WorkerFinished` event.
pub proof fn lemma_only_worker_completion_leaves_processing(e: Event)
    requires
        spec_step(RecState::Processing, e).0 != RecState::Processing,
    ensures
        e == Event::WorkerFinished,
        spec_step(RecState::Processing, e).0 == RecState::Stopped,
{
}

/// The worker-starting action arises only from a press while Recording: no
/// other state and event demand it, so at most one worker is outstanding.
pub proof fn lemma_worker_started_only_from_recording(s: RecState, e: Event)
    requires
        spec_step(s, e).1 == Action::StopCaptureAndRunWorker,
    ensures
        s == RecState::Recording,
        e == Event::TogglePressed,
        spec_step(s, e).0 == RecState::Processing,
{
}

/// The state after an arbitrary sequence of events.
pub open spec fn spec_run_events(s: RecState, evs: Seq<Event>) -> RecState
    decreases evs.len(),
{
    if evs.len() == 0 {
        s
    } else {
        spec_run_events(spec_step(s, evs[0]).0, evs.drop_first())
    }
}

/// How many times a run over `evs` orders a worker started.
pub open spec fn spec_workers_started(s: RecState, evs: Seq<Event>) -> nat
    decreases evs.len(),
{
    if evs.len() == 0 {
        0
    } else {
        (if spec_step(s, evs[0]).1 == Action::StopCaptureAndRunWorker {
            1nat
        } else {
            0nat
        }) + spec_workers_started(spec_step(s, evs[0]).0, evs.drop_first())
    }
}

/// How many times a run over `evs` publishes a worker's outcome.
pub open spec fn spec_workers_published(s: RecState, evs: Seq<Event>) -> nat
    decreases evs.len(),
{
    if evs.len() == 0 {
        0
    } else {
        (if spec_step(s, evs[0]).1 == Action::PublishOutcome {
            1nat
        } else {
            0nat
        }) + spec_workers_published(spec_step(s, evs[0]).0, evs.drop_first())
    }
}

/// One outstanding worker exactly while Processing.
pub open spec fn spec_outstanding(s: RecState) -> nat {
    if s == RecState::Processing {
        1
    } else {
        0
    }
}

/// Worker accounting: over any event sequence, workers started and outcomes
/// published balance exactly against whether the final state is Processing.
/// Starting a worker enters Processing and publishing one leaves it, so the
/// Processing state is precisely "one worker outstanding".
pub proof fn lemma_worker_accounting(s: RecState, evs: Seq<Event>)
    ensures
        spec_workers_started(s, evs) + spec_outstanding(s) == spec_workers_published(s, evs)
            + spec_outstanding(spec_run_events(s, evs)),
    decreases evs.len(),
{
    if evs.len() > 0 {
        lemma_worker_accounting(spec_step(s, evs[0]).0, evs.drop_first());
    }
}

/// At most one worker is ever outstanding: starting idle, no run of events —
/// presses included, however rapid — sees worker starts exceed published
/// outcomes by more than one, and a second worker can only start after the
/// first one's outcome was published.
pub proof fn lemma_at_most_one_worker_outstanding(evs: Seq<Event>)
    ensures
        spec_workers_published(RecState::Stopped, evs) <= spec_workers_started(
            RecState::Stopped,
            evs,
        ) <= spec_workers_published(RecState::Stopped, evs) + 1,
{
    lemma_worker_accounting(RecState::Stopped, evs);
}

} // verus!
