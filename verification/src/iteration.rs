//! The course of a benchmark over all its fixtures.

use vstd::prelude::*;
use vstd::string::*;

use crate::process::RunError;
use crate::runner::{hardware_file, hardware_path, Action, RunConfig};

verus! {

/// Why a benchmark failed.
#[derive(Debug)]
pub enum IterError {
    /// The description of the hardware could not be written.
    Hardware(String),
    /// A fixture could not be had.
    Input(String),
    /// The run of a fixture failed.
    Run(RunError),
    /// Fixtures are not run to verify proofs.
    VerifyRequested,
}

impl IterError {
    /// The text of the failure.
    pub open spec fn text(&self) -> Seq<char> {
        match self {
            IterError::Hardware(error) => error@,
            IterError::Input(error) => error@,
            IterError::Run(error) => error.text(),
            IterError::VerifyRequested =>
                "run_benchmark_iter should not be called with Action::Verify, use run_verify_from_disk"@,
        }
    }

    /// The text of the failure.
    pub fn message(&self) -> (message: String)
        ensures
            message@ == self.text(),
    {
        match self {
            IterError::Hardware(error) => error.clone(),
            IterError::Input(error) => error.clone(),
            IterError::Run(error) => error.message(),
            IterError::VerifyRequested =>
                "run_benchmark_iter should not be called with Action::Verify, use run_verify_from_disk".to_owned(),
        }
    }
}

/// What is to be done next in a benchmark.
#[derive(Debug)]
pub enum IterStage {
    /// Describe the hardware in the file `path`.
    WriteHardware {
        /// The file
        path: String,
    },
    /// Run all fixtures, in any order and side by side, until one fails.
    RunParallel,
    /// Get the next fixture.
    NextInput,
    /// Run the fixture that was got last.
    Process,
    /// Nothing is left to do.
    Finished {
        /// How the benchmark ended
        result: Result<(), IterError>,
    },
}

/// The answer to what a stage asks for.
#[derive(Debug)]
pub enum IterEvent {
    /// Whether the file was written.
    Done(Result<(), String>),
    /// Whether all fixtures were run, or the failure of one of them.
    Drained(Result<(), IterError>),
    /// Whether there is another fixture and it could be had.
    Input(Option<Result<(), String>>),
    /// Whether the fixture was run.
    Processed(Result<(), RunError>),
}

impl IterStage {
    /// Whether `event` answers what this stage asks for.
    pub open spec fn accepts(&self, event: IterEvent) -> bool {
        match self {
            IterStage::WriteHardware { .. } => event is Done,
            IterStage::RunParallel => event is Drained,
            IterStage::NextInput => event is Input,
            IterStage::Process => event is Processed,
            IterStage::Finished { .. } => false,
        }
    }
}

/// The stage of a benchmark that has ended.
pub open spec fn ended(result: Result<(), IterError>) -> IterStage {
    IterStage::Finished { result }
}

/// How far a benchmark has come on its way through its fixtures.
#[derive(Debug)]
pub struct IterState {
    /// The action
    pub action: Action,
    /// What is to be done next
    pub stage: IterStage,
}

impl IterState {
    /// The stage that comes when `event` has answered the current stage.
    /// Fixtures are executed side by side and proved one after the other; the
    /// first failure ends the benchmark.
    pub open spec fn after(&self, event: IterEvent) -> IterStage {
        match (self.stage, event) {
            (IterStage::WriteHardware { .. }, IterEvent::Done(Err(error))) => ended(
                Err(IterError::Hardware(error)),
            ),
            (IterStage::WriteHardware { .. }, IterEvent::Done(Ok(_))) => match self.action {
                Action::Execute => IterStage::RunParallel,
                Action::Prove => IterStage::NextInput,
                Action::Verify => ended(Err(IterError::VerifyRequested)),
            },
            (IterStage::RunParallel, IterEvent::Drained(result)) => ended(result),
            (IterStage::NextInput, IterEvent::Input(None)) => ended(Ok(())),
            (IterStage::NextInput, IterEvent::Input(Some(Ok(_)))) => IterStage::Process,
            (IterStage::NextInput, IterEvent::Input(Some(Err(error)))) => ended(
                Err(IterError::Input(error)),
            ),
            (IterStage::Process, IterEvent::Processed(Ok(_))) => IterStage::NextInput,
            (IterStage::Process, IterEvent::Processed(Err(error))) => ended(
                Err(IterError::Run(error)),
            ),
            _ => self.stage,
        }
    }

    /// Whether `next` is this benchmark, one answered stage later.
    pub open spec fn steps_to(&self, event: IterEvent, next: IterState) -> bool {
        self.stage.accepts(event) && next.action == self.action && next.stage == self.after(event)
    }
}

/// A benchmark on its way through its fixtures.
pub struct BenchmarkIter {
    state: IterState,
}

impl View for BenchmarkIter {
    type V = IterState;

    closed spec fn view(&self) -> IterState {
        self.state
    }
}

impl BenchmarkIter {
    /// What is to be done next.
    pub fn stage(&self) -> (stage: &IterStage)
        ensures
            *stage == self@.stage,
    {
        &self.state.stage
    }

    /// How the benchmark ended, once it has.
    pub fn into_result(self) -> (result: Option<Result<(), IterError>>)
        ensures
            result == match self@.stage {
                IterStage::Finished { result } => Some(result),
                _ => None,
            },
    {
        match self.state.stage {
            IterStage::Finished { result } => Some(result),
            _ => None,
        }
    }

    /// Moves on with the answer to what the current stage asks for.
    pub fn step(self, event: IterEvent) -> (next: BenchmarkIter)
        requires
            self@.stage.accepts(event),
        ensures
            self@.steps_to(event, next@),
    {
        let IterState { action, stage } = self.state;
        let stage = match (stage, event) {
            (IterStage::WriteHardware { .. }, IterEvent::Done(answer)) => match answer {
                Ok(_) => match action {
                    Action::Execute => IterStage::RunParallel,
                    Action::Prove => IterStage::NextInput,
                    Action::Verify => IterStage::Finished {
                        result: Err(IterError::VerifyRequested),
                    },
                },
                Err(error) => IterStage::Finished { result: Err(IterError::Hardware(error)) },
            },
            (IterStage::RunParallel, IterEvent::Drained(result)) => IterStage::Finished { result },
            (IterStage::NextInput, IterEvent::Input(answer)) => match answer {
                None => IterStage::Finished { result: Ok(()) },
                Some(Ok(_)) => IterStage::Process,
                Some(Err(error)) => IterStage::Finished { result: Err(IterError::Input(error)) },
            },
            (IterStage::Process, IterEvent::Processed(answer)) => match answer {
                Ok(_) => IterStage::NextInput,
                Err(error) => IterStage::Finished { result: Err(IterError::Run(error)) },
            },
            (stage, _) => stage,
        };
        BenchmarkIter { state: IterState { action, stage } }
    }
}

/// Starts a benchmark over its fixtures. The hardware is described before
/// anything else.
pub fn run_benchmark_iter(config: &RunConfig) -> (iteration: BenchmarkIter)
    ensures
        iteration@.action == config.action,
        iteration@.stage matches IterStage::WriteHardware { path } && path@ == hardware_file(config),
{
    BenchmarkIter {
        state: IterState {
            action: config.action,
            stage: IterStage::WriteHardware { path: hardware_path(config) },
        },
    }
}

/// Whether the benchmark went through the states `states`, each answered by the
/// event at the same place.
pub open spec fn iter_trace(states: Seq<IterState>, events: Seq<IterEvent>) -> bool {
    &&& states.len() == events.len() + 1
    &&& states[0].stage is WriteHardware
    &&& forall|i: int|
        0 <= i < events.len() ==> (#[trigger] states[i]).steps_to(events[i], states[i + 1])
}

/// Whether `event` tells of a failure.
pub open spec fn tells_failure(event: IterEvent) -> bool {
    match event {
        IterEvent::Done(answer) => answer is Err,
        IterEvent::Drained(answer) => answer is Err,
        IterEvent::Input(answer) => answer matches Some(Err(_)),
        IterEvent::Processed(answer) => answer is Err,
    }
}

/// The action stays, and the stages are those of the action.
proof fn lemma_iter_mode(states: Seq<IterState>, events: Seq<IterEvent>, i: int)
    requires
        iter_trace(states, events),
        0 <= i < states.len(),
    ensures
        states[i].action == states[0].action,
        states[i].stage is RunParallel ==> states[0].action == Action::Execute,
        states[i].stage is NextInput || states[i].stage is Process ==> states[0].action
            == Action::Prove,
        states[i].stage matches IterStage::Finished { result: Ok(_) } ==> states[0].action
            != Action::Verify,
    decreases i,
{
    if i > 0 {
        lemma_iter_mode(states, events, i - 1);
        assert(states[i - 1].steps_to(events[i - 1], states[i]));
    }
}

/// Fixtures are run side by side only where they are executed, and one after
/// the other only where they are proved.
pub proof fn law_fixtures_run_as_the_action_says(
    states: Seq<IterState>,
    events: Seq<IterEvent>,
    i: int,
)
    requires
        iter_trace(states, events),
        0 <= i < states.len(),
    ensures
        states[i].stage is RunParallel ==> states[0].action == Action::Execute,
        states[i].stage is Process ==> states[0].action == Action::Prove,
{
    lemma_iter_mode(states, events, i);
}

/// A benchmark that is asked to verify runs no fixture and ends in a failure.
pub proof fn law_verify_never_runs_fixtures(
    states: Seq<IterState>,
    events: Seq<IterEvent>,
    i: int,
)
    requires
        iter_trace(states, events),
        states[0].action == Action::Verify,
        0 <= i < states.len(),
    ensures
        !(states[i].stage is RunParallel),
        !(states[i].stage is Process),
        states[i].stage matches IterStage::Finished { result } ==> result is Err,
        states.len() <= 2,
{
    lemma_iter_mode(states, events, i);
    if states.len() > 2 {
        assert(states[0].steps_to(events[0], states[1]));
        assert(states[1].steps_to(events[1], states[2]));
    }
}

/// A failure ends the benchmark at once, with a failure.
pub proof fn law_first_failure_ends_the_benchmark(
    states: Seq<IterState>,
    events: Seq<IterEvent>,
    i: int,
)
    requires
        iter_trace(states, events),
        0 <= i < events.len(),
        tells_failure(events[i]),
    ensures
        i == events.len() - 1,
        states.last().stage matches IterStage::Finished { result } && result is Err,
{
    assert(states[i].steps_to(events[i], states[i + 1]));
    if i + 1 < events.len() {
        assert(states[i + 1].steps_to(events[i + 1], states[i + 2]));
    }
}

/// A benchmark that ends well was told of no failure, and where it proves it
/// went on until there was no further fixture.
pub proof fn law_success_means_every_fixture_was_run(
    states: Seq<IterState>,
    events: Seq<IterEvent>,
)
    requires
        iter_trace(states, events),
        states.last().stage matches IterStage::Finished { result: Ok(_) },
    ensures
        forall|i: int| 0 <= i < events.len() ==> !tells_failure(#[trigger] events[i]),
        states[0].action == Action::Prove ==> events.last() == IterEvent::Input(None),
{
    assert forall|i: int| 0 <= i < events.len() implies !tells_failure(#[trigger] events[i]) by {
        if tells_failure(events[i]) {
            law_first_failure_ends_the_benchmark(states, events, i);
        }
    }
    let last = events.len() - 1;
    lemma_iter_mode(states, events, last);
    assert(states[last].steps_to(events[last], states[last + 1]));
}

/// Where fixtures are proved, getting one and running it alternate: a fixture is
/// run right after it was got, what was got is run next, and the next one is got
/// only after the last one was run.
pub proof fn law_fixtures_are_got_and_run_in_turn(
    states: Seq<IterState>,
    events: Seq<IterEvent>,
    i: int,
)
    requires
        iter_trace(states, events),
        0 <= i < states.len(),
    ensures
        states[i].stage is Process ==> i > 0 && states[i - 1].stage is NextInput && (
        events[i - 1] matches IterEvent::Input(Some(Ok(_)))),
        states[i].stage is NextInput ==> i > 0 && (states[i - 1].stage is WriteHardware || (
        states[i - 1].stage is Process && (events[i - 1] matches IterEvent::Processed(Ok(_))))),
        i < events.len() && (events[i] matches IterEvent::Input(Some(Ok(_)))) ==> states[i
            + 1].stage is Process,
{
    if i > 0 {
        assert(states[i - 1].steps_to(events[i - 1], states[i]));
    }
    if i < events.len() {
        assert(states[i].steps_to(events[i], states[i + 1]));
    }
}

} // verus!
