//! What holds of every way that a fixture can take through a zkVM.

use vstd::prelude::*;

use crate::metrics::{BenchmarkRun, ExecutionMetrics, ProvingMetrics};
use crate::output::{law_normalized_values_are_expected_bytes_and_zeros, normalized};
use crate::process::{
    CallEnd, Event, FixtureRun, Outcome, ProcessState, ProfileOutcome, RunError, Stage,
};
use crate::runner::{panic_message, Action};
use crate::zkvm::{ProveOutput, ZkVMInstance};

verus! {

/// Whether the fixture went through the states `states`, each answered by the
/// event at the same place, from the beginning of its way.
pub open spec fn trace(states: Seq<ProcessState>, events: Seq<Event>) -> bool {
    &&& states.len() == events.len() + 1
    &&& states[0].starts()
    &&& forall|i: int|
        0 <= i < events.len() ==> (#[trigger] states[i]).steps_to(events[i], states[i + 1])
}

/// How many stages can come after this one at most.
pub open spec fn stages_left(stage: Stage) -> nat {
    match stage {
        Stage::CheckReport { .. } => 12,
        Stage::LoadInput => 11,
        Stage::CreateDumpDir { .. } => 10,
        Stage::CheckDump { .. } => 9,
        Stage::WriteDump { .. } => 8,
        Stage::Prove { .. } => 7,
        Stage::CompareProof { .. } => 6,
        Stage::CreateProofDir { .. } => 5,
        Stage::Profile { .. } => 4,
        Stage::WriteProof { .. } => 4,
        Stage::Execute { .. } => 3,
        Stage::VerifyProof { .. } => 3,
        Stage::CompareExecution { .. } => 2,
        Stage::CompareVerification { .. } => 2,
        Stage::WriteReport { .. } => 1,
        Stage::Finished { .. } => 0,
    }
}

/// Whether the report is of an execution and nothing else.
pub open spec fn of_execution(report: BenchmarkRun) -> bool {
    report.execution is Some && report.proving is None
}

/// Whether the report is of a proof and nothing else.
pub open spec fn of_proof(report: BenchmarkRun) -> bool {
    report.execution is None && report.proving is Some
}

/// What holds of a fixture at every point of its way: the stage belongs to the
/// action, and the report is filed where it belongs.
pub open spec fn in_order(state: ProcessState) -> bool {
    let action = state.run.config.action;
    match state.stage {
        Stage::CheckReport { path } => !state.run.config.force_rerun && path@
            == state.run.report_file(),
        Stage::LoadInput => true,
        Stage::CreateDumpDir { .. } | Stage::CheckDump { .. } | Stage::WriteDump { .. } =>
            state.run.config.dump_inputs_folder is Some,
        Stage::Profile { .. } => action == Action::Execute
            && state.run.config.zisk_profile_config is Some && state.run.zkvm.elf() is Some,
        Stage::Execute { .. } | Stage::CompareExecution { .. } => action == Action::Execute
            && state.run.zkvm is Dockerized,
        Stage::CreateProofDir { .. } | Stage::WriteProof { .. } => action == Action::Prove
            && state.run.config.save_proofs_folder is Some,
        Stage::Prove { .. }
        | Stage::CompareProof { .. }
        | Stage::VerifyProof { .. }
        | Stage::CompareVerification { .. } => action == Action::Prove,
        Stage::WriteReport { path, report } => {
            &&& path@ == state.run.report_file()
            &&& report.name@ == state.run.fixture_name@
            &&& report.metadata@ == state.run.metadata@
            &&& report.verification is None
            &&& action == Action::Execute && of_execution(report) || action == Action::Prove
                && of_proof(report)
        },
        Stage::Finished { result } => match result {
            Ok(Outcome::Skipped) => !state.run.config.force_rerun,
            Ok(Outcome::Reported) => action != Action::Verify,
            Err(_) => true,
        },
    }
}

/// One answered stage keeps the order and comes nearer to the end.
proof fn lemma_step(state: ProcessState, event: Event, next: ProcessState)
    requires
        state.steps_to(event, next),
        in_order(state),
    ensures
        in_order(next),
        stages_left(next.stage) < stages_left(state.stage),
        next.run == state.run,
{
}

/// The fixture, the zkVM and the configuration stay, and the order is kept.
proof fn lemma_trace(states: Seq<ProcessState>, events: Seq<Event>, i: int)
    requires
        trace(states, events),
        0 <= i < states.len(),
    ensures
        in_order(states[i]),
        states[i].run == states[0].run,
        stages_left(states[i].stage) + i <= 12,
    decreases i,
{
    if i > 0 {
        lemma_trace(states, events, i - 1);
        assert(states[i - 1].steps_to(events[i - 1], states[i]));
        lemma_step(states[i - 1], events[i - 1], states[i]);
    }
}

/// Every fixture comes to an end: its way has at most twelve answered stages,
/// whatever the answers are.
pub proof fn law_every_run_ends(states: Seq<ProcessState>, events: Seq<Event>)
    requires
        trace(states, events),
    ensures
        events.len() <= 12,
        events.len() == 12 ==> states.last().stage is Finished,
{
    lemma_trace(states, events, events.len() as int);
}

/// A report says something either of the execution or of the proof, as the
/// action asks, and nothing of a verification. It carries the fixture's metadata
/// and is filed under the fixture's own name.
pub proof fn law_report_is_of_the_action(states: Seq<ProcessState>, events: Seq<Event>, i: int)
    requires
        trace(states, events),
        0 <= i < states.len(),
        states[i].stage is WriteReport,
    ensures
        ({
            let report = states[i].stage->WriteReport_report;
            let run = states[0].run;
            &&& report.name@ == run.fixture_name@
            &&& report.metadata@ == run.metadata@
            &&& report.verification is None
            &&& states[i].stage->WriteReport_path@ == run.report_file()
            &&& run.config.action == Action::Execute && of_execution(report) || run.config.action
                == Action::Prove && of_proof(report)
        }),
{
    lemma_trace(states, events, i);
}

/// A run that ends well without skipping wrote one report, in its last stage but
/// one, and no other.
pub proof fn law_one_report_is_written(states: Seq<ProcessState>, events: Seq<Event>)
    requires
        trace(states, events),
        states.last().stage == (Stage::Finished { result: Ok(Outcome::Reported) }),
    ensures
        events.len() > 0,
        states[events.len() - 1].stage is WriteReport,
        events.last() matches Event::Done(Ok(_)),
        forall|i: int|
            0 <= i < states.len() && i != events.len() - 1 ==> !((#[trigger] states[i]).stage
                is WriteReport),
{
    let last = events.len() - 1;
    lemma_trace(states, events, last + 1);
    if last >= 0 {
        assert(states[last].steps_to(events[last], states[last + 1]));
        assert forall|i: int| 0 <= i < states.len() && i != last implies !((
        #[trigger] states[i]).stage is WriteReport) by {
            if i < last {
                lemma_descent(states, events, i, last);
            }
        }
    }
}

/// Without a forced rerun, a fixture whose report exists is skipped: nothing is
/// asked for but whether the report exists.
pub proof fn law_existing_report_is_skipped(states: Seq<ProcessState>, events: Seq<Event>)
    requires
        trace(states, events),
        !states[0].run.config.force_rerun,
        events.len() > 0,
        events[0] == Event::Exists(true),
    ensures
        events.len() == 1,
        states[1].stage == (Stage::Finished { result: Ok(Outcome::Skipped) }),
{
    assert(states[0].steps_to(events[0], states[1]));
    if events.len() > 1 {
        assert(states[1].steps_to(events[1], states[2]));
    }
}

/// A second run after one that left a report, even of a crash, looks for the very
/// file that the first run wrote. Where it is found, the second run is skipped:
/// it reaches neither the zkVM nor any file.
pub proof fn law_second_run_is_skipped(
    first: Seq<ProcessState>,
    first_events: Seq<Event>,
    second: Seq<ProcessState>,
    second_events: Seq<Event>,
)
    requires
        trace(first, first_events),
        trace(second, second_events),
        first.last().stage == (Stage::Finished { result: Ok(Outcome::Reported) }),
        second[0].run.zkvm == first[0].run.zkvm,
        second[0].run.config == first[0].run.config,
        second[0].run.fixture_name@ == first[0].run.fixture_name@,
        !second[0].run.config.force_rerun,
        second_events.len() > 0,
        second_events[0] == Event::Exists(true),
    ensures
        ({
            let written = first[first_events.len() - 1].stage;
            let looked_for = second[0].stage;
            &&& written is WriteReport
            &&& looked_for is CheckReport
            &&& looked_for->CheckReport_path@ == written->WriteReport_path@
        }),
        second_events.len() == 1,
        second[1].stage == (Stage::Finished { result: Ok(Outcome::Skipped) }),
{
    law_one_report_is_written(first, first_events);
    lemma_trace(first, first_events, first_events.len() - 1);
    law_existing_report_is_skipped(second, second_events);
}

/// With a forced rerun no fixture is skipped, nor is a report looked for.
pub proof fn law_forced_rerun_skips_nothing(states: Seq<ProcessState>, events: Seq<Event>, i: int)
    requires
        trace(states, events),
        states[0].run.config.force_rerun,
        0 <= i < states.len(),
    ensures
        !(states[i].stage is CheckReport),
        states[i].stage != (Stage::Finished { result: Ok(Outcome::Skipped) }),
{
    lemma_trace(states, events, i);
}

/// A fixture that is run with the action of verifying never reaches the zkVM and
/// never leaves a report.
pub proof fn law_verify_never_reaches_the_zkvm(states: Seq<ProcessState>, events: Seq<Event>, i: int)
    requires
        trace(states, events),
        states[0].run.config.action == Action::Verify,
        0 <= i < states.len(),
    ensures
        !(states[i].stage is Execute),
        !(states[i].stage is Prove),
        !(states[i].stage is Profile),
        !(states[i].stage is WriteReport),
        states[i].stage != (Stage::Finished { result: Ok(Outcome::Reported) }),
{
    lemma_trace(states, events, i);
}

/// A failure or a panic of the zkVM does not fail the run: the report says that
/// it crashed, and why.
pub proof fn law_crashes_are_reported(
    run: FixtureRun,
    input: Vec<u8>,
    reason: String,
    executed: bool,
    event: Event,
    stage: Stage,
)
    requires
        ({
            let current = if executed {
                Stage::Execute { input }
            } else {
                Stage::Prove { input }
            };
            run.leads_to(current, event, stage)
        }),
        if executed {
            event == Event::Executed(CallEnd::Failed(reason)) || exists|payload|
                event == Event::Executed(CallEnd::Panicked(payload)) && panic_message(payload)
                    == reason@
        } else {
            event == Event::Proved(CallEnd::Failed(reason)) || exists|payload|
                event == Event::Proved(CallEnd::Panicked(payload)) && panic_message(payload)
                    == reason@
        },
    ensures
        stage is WriteReport,
        ({
            let report = stage->WriteReport_report;
            if executed {
                report.proving is None && (report.execution matches Some(
                    ExecutionMetrics::Crashed(crash),
                ) && crash.reason@ == reason@)
            } else {
                report.execution is None && (report.proving matches Some(
                    ProvingMetrics::Crashed(crash),
                ) && crash.reason@ == reason@)
            }
        }),
{
}

/// How profiling ends makes no difference to the run: after a failure and after
/// a success the same stages may come.
pub proof fn law_profiling_never_decides(
    run: FixtureRun,
    input: Vec<u8>,
    a: ProfileOutcome,
    b: ProfileOutcome,
    stage: Stage,
)
    ensures
        run.leads_to(Stage::Profile { input }, Event::Profiled(a), stage) == run.leads_to(
            Stage::Profile { input },
            Event::Profiled(b),
            stage,
        ),
{
}

/// Whether the two runs are of one fixture on one zkVM with one configuration,
/// but for profiling: the first is configured for it, the second is not.
pub open spec fn differ_in_profiling(with: FixtureRun, without: FixtureRun) -> bool {
    &&& with.zkvm == without.zkvm
    &&& with.fixture_name@ == without.fixture_name@
    &&& with.metadata@ == without.metadata@
    &&& with.config.output_folder@ == without.config.output_folder@
    &&& with.config.sub_folder == without.config.sub_folder
    &&& with.config.action == without.config.action
    &&& with.config.force_rerun == without.config.force_rerun
    &&& with.config.dump_inputs_folder == without.config.dump_inputs_folder
    &&& with.config.save_proofs_folder == without.config.save_proofs_folder
    &&& with.config.zisk_profile_config is Some
    &&& without.config.zisk_profile_config is None
}

/// Whether the two reports say the same, in the same words.
pub open spec fn reports_agree(a: BenchmarkRun, b: BenchmarkRun) -> bool {
    &&& a.name@ == b.name@
    &&& a.metadata@ == b.metadata@
    &&& match (a.execution, b.execution) {
        (Some(ExecutionMetrics::Crashed(c)), Some(ExecutionMetrics::Crashed(d))) => c.reason@
            == d.reason@,
        _ => a.execution == b.execution,
    }
    &&& match (a.proving, b.proving) {
        (Some(ProvingMetrics::Crashed(c)), Some(ProvingMetrics::Crashed(d))) => c.reason@
            == d.reason@,
        _ => a.proving == b.proving,
    }
    &&& a.verification == b.verification
}

/// Whether the two failures are the same, in the same words.
pub open spec fn failures_agree(a: RunError, b: RunError) -> bool {
    match (a, b) {
        (
            RunError::CreateDir { path: p, error: e },
            RunError::CreateDir { path: q, error: f },
        ) => p@ == q@ && e == f,
        (
            RunError::WriteInput { path: p, error: e },
            RunError::WriteInput { path: q, error: f },
        ) => p@ == q@ && e == f,
        (
            RunError::WriteProof { path: p, error: e },
            RunError::WriteProof { path: q, error: f },
        ) => p@ == q@ && e == f,
        _ => a == b,
    }
}

/// Whether the two stages ask for the same, or have ended in the same way.
pub open spec fn stages_agree(a: Stage, b: Stage) -> bool {
    match (a, b) {
        (Stage::CheckReport { path: p }, Stage::CheckReport { path: q }) => p@ == q@,
        (
            Stage::CreateDumpDir { dir: d, path: p, input: i },
            Stage::CreateDumpDir { dir: e, path: q, input: j },
        ) => d@ == e@ && p@ == q@ && i == j,
        (
            Stage::CheckDump { path: p, input: i },
            Stage::CheckDump { path: q, input: j },
        ) => p@ == q@ && i == j,
        (
            Stage::WriteDump { path: p, input: i },
            Stage::WriteDump { path: q, input: j },
        ) => p@ == q@ && i == j,
        (
            Stage::CreateProofDir { dir: d, path: p, output: i, matched: m },
            Stage::CreateProofDir { dir: e, path: q, output: j, matched: n },
        ) => d@ == e@ && p@ == q@ && i == j && m == n,
        (
            Stage::WriteProof { path: p, output: i, matched: m },
            Stage::WriteProof { path: q, output: j, matched: n },
        ) => p@ == q@ && i == j && m == n,
        (
            Stage::WriteReport { path: p, report: i },
            Stage::WriteReport { path: q, report: j },
        ) => p@ == q@ && reports_agree(i, j),
        (Stage::Finished { result: Err(e) }, Stage::Finished { result: Err(f) }) => failures_agree(
            e,
            f,
        ),
        _ => a == b,
    }
}

/// The answers but for those of the profiler.
pub open spec fn unprofiled(events: Seq<Event>) -> Seq<Event> {
    events.filter(|event: Event| !(event is Profiled))
}

/// One answered stage of both runs, where the answer is not the profiler's.
proof fn lemma_common_step(
    with: FixtureRun,
    without: FixtureRun,
    at_with: Stage,
    at_without: Stage,
    event: Event,
    next_with: Stage,
    next_without: Stage,
)
    requires
        differ_in_profiling(with, without),
        with.zkvm.elf() is Some,
        stages_agree(at_with, at_without),
        !(event is Profiled),
        with.leads_to(at_with, event, next_with),
        without.leads_to(at_without, event, next_without),
    ensures
        match next_with {
            Stage::Profile { input } => without.after_profile(input, next_without),
            _ => stages_agree(next_with, next_without),
        },
{
}

proof fn lemma_profiling_is_aside(
    with: Seq<ProcessState>,
    events: Seq<Event>,
    without: Seq<ProcessState>,
    fewer: Seq<Event>,
)
    requires
        trace(with, events),
        trace(without, fewer),
        differ_in_profiling(with[0].run, without[0].run),
        with[0].run.zkvm.elf() is Some,
        fewer == unprofiled(events),
    ensures
        match with.last().stage {
            Stage::Profile { input } => without[0].run.after_profile(input, without.last().stage),
            stage => stages_agree(stage, without.last().stage),
        },
    decreases events.len(),
{
    reveal(Seq::filter);
    lemma_trace(with, events, events.len() as int);
    lemma_trace(without, fewer, fewer.len() as int);
    if events.len() > 0 {
        let last = events.len() - 1;
        let event = events[last];
        let shorter = with.drop_last();
        assert(with[last].steps_to(event, with[last + 1]));
        assert(trace(shorter, events.drop_last())) by {
            assert forall|i: int| 0 <= i < last implies (#[trigger] shorter[i]).steps_to(
                events.drop_last()[i],
                shorter[i + 1],
            ) by {
                assert(with[i].steps_to(events[i], with[i + 1]));
            }
        }
        lemma_trace(with, events, last);
        if event is Profiled {
            lemma_profiling_is_aside(shorter, events.drop_last(), without, fewer);
        } else {
            let before = fewer.len() - 1;
            let cut = without.drop_last();
            assert(fewer.drop_last() =~= unprofiled(events.drop_last()));
            assert(without[before].steps_to(fewer[before], without[before + 1]));
            assert(trace(cut, fewer.drop_last())) by {
                assert forall|i: int| 0 <= i < before implies (#[trigger] cut[i]).steps_to(
                    fewer.drop_last()[i],
                    cut[i + 1],
                ) by {
                    assert(without[i].steps_to(fewer[i], without[i + 1]));
                }
            }
            lemma_trace(without, fewer, before);
            lemma_profiling_is_aside(shorter, events.drop_last(), cut, fewer.drop_last());
            lemma_common_step(
                with[0].run,
                without[0].run,
                with[last].stage,
                without[before].stage,
                event,
                with[last + 1].stage,
                without[before + 1].stage,
            );
        }
    }
}

/// Profiling never alters a run. A run that is configured for profiling, with the
/// ELF at hand, and one that is not, given the same answers but for the
/// profiler's, ask for the same, write the same report to the same file and end
/// in the same way, whether profiling succeeds or fails.
pub proof fn law_profiling_never_alters_a_run(
    with: Seq<ProcessState>,
    events: Seq<Event>,
    without: Seq<ProcessState>,
    fewer: Seq<Event>,
)
    requires
        trace(with, events),
        trace(without, fewer),
        differ_in_profiling(with[0].run, without[0].run),
        with[0].run.zkvm.elf() is Some,
        fewer == unprofiled(events),
        !(with.last().stage is Profile),
    ensures
        stages_agree(with.last().stage, without.last().stage),
{
    lemma_profiling_is_aside(with, events, without, fewer);
}

/// An input that was dumped before is not written again.
pub proof fn law_existing_dump_is_kept(
    states: Seq<ProcessState>,
    events: Seq<Event>,
    i: int,
    j: int,
)
    requires
        trace(states, events),
        0 <= i < events.len(),
        states[i].stage is CheckDump,
        events[i] == Event::Exists(true),
        0 <= j < states.len(),
    ensures
        !(states[j].stage is WriteDump),
{
    lemma_trace(states, events, i);
    assert(states[i].steps_to(events[i], states[i + 1]));
    lemma_step(states[i], events[i], states[i + 1]);
    if states[j].stage is WriteDump {
        if j <= i {
            lemma_descent(states, events, j, i);
        } else {
            lemma_descent(states, events, i + 1, j);
        }
    }
}

/// An input is dumped to the same file whatever the zkVM is.
pub proof fn law_zkvms_share_dumps(
    a: FixtureRun,
    b: FixtureRun,
    input: Vec<u8>,
    stage_of_a: Stage,
    stage_of_b: Stage,
)
    requires
        a.config == b.config,
        a.fixture_name@ == b.fixture_name@,
        a.config.dump_inputs_folder is Some,
        a.after_input(input, stage_of_a),
        b.after_input(input, stage_of_b),
    ensures
        stage_of_a is CreateDumpDir,
        stage_of_b is CreateDumpDir,
        stage_of_a->CreateDumpDir_path@ == stage_of_b->CreateDumpDir_path@,
        stage_of_a->CreateDumpDir_input == input,
{
}

/// Later stages are nearer to the end.
proof fn lemma_descent(states: Seq<ProcessState>, events: Seq<Event>, i: int, j: int)
    requires
        trace(states, events),
        0 <= i <= j < states.len(),
    ensures
        stages_left(states[j].stage) + (j - i) <= stages_left(states[i].stage),
    decreases j - i,
{
    if i < j {
        lemma_descent(states, events, i, j - 1);
        lemma_trace(states, events, j - 1);
        assert(states[j - 1].steps_to(events[j - 1], states[j]));
        lemma_step(states[j - 1], events[j - 1], states[j]);
    }
}

/// The bytes that were proved are the bytes that are saved and verified, and
/// what was noted of the prover's public values stays.
pub open spec fn carries(stage: Stage, output: ProveOutput, matched: bool) -> bool {
    match stage {
        Stage::CreateProofDir { output: kept, matched: noted, .. } => kept == output && noted
            == matched,
        Stage::WriteProof { output: kept, matched: noted, .. } => kept == output && noted == matched,
        Stage::VerifyProof { output: kept, matched: noted } => kept == output && noted == matched,
        Stage::CompareVerification { output: kept, matched: noted, .. } => kept == output && noted
            == matched,
        Stage::WriteReport { .. } | Stage::Finished { .. } => true,
        _ => false,
    }
}

proof fn lemma_carries(
    states: Seq<ProcessState>,
    events: Seq<Event>,
    i: int,
    j: int,
    output: ProveOutput,
    matched: bool,
)
    requires
        trace(states, events),
        0 <= i <= j < states.len(),
        carries(states[i].stage, output, matched),
    ensures
        carries(states[j].stage, output, matched),
    decreases j - i,
{
    if i < j {
        lemma_carries(states, events, i, j - 1, output, matched);
        assert(states[j - 1].steps_to(events[j - 1], states[j]));
    }
}

/// A proof is reported to match exactly where both the prover's public values
/// and the ones of the verified proof are those that the fixture expects. The
/// report gives the size of that proof and the time that it took.
pub proof fn law_proof_matches_iff_prover_and_verifier_match(
    states: Seq<ProcessState>,
    events: Seq<Event>,
    i: int,
    j: int,
    expected_of_prover: Vec<u8>,
    expected_of_verifier: Vec<u8>,
)
    requires
        trace(states, events),
        0 <= i < j < events.len(),
        states[i].stage is CompareProof,
        events[i] == Event::Expected(Ok(expected_of_prover)),
        states[j].stage is CompareVerification,
        events[j] == Event::Expected(Ok(expected_of_verifier)),
    ensures
        ({
            let kind = states[0].run.zkvm.kind();
            let output = states[i].stage->CompareProof_output;
            let values = states[j].stage->values;
            states[j + 1].stage is WriteReport
                && states[j + 1].stage->WriteReport_report.proving == Some(
                ProvingMetrics::Success {
                    output_matched: normalized(kind, expected_of_prover@) == output.public_values@
                        && normalized(kind, expected_of_verifier@) == values@,
                    proof_size: output.proof@.len() as usize,
                    proving_time_ms: output.proving_time.millis() as u128,
                    verification_time_ms: states[j].stage->millis,
                },
            )
        }),
{
    let output = states[i].stage->CompareProof_output;
    let matched = normalized(states[i].run.zkvm.kind(), expected_of_prover@)
        == output.public_values@;
    lemma_trace(states, events, i);
    lemma_trace(states, events, j);
    assert(states[i].steps_to(events[i], states[i + 1]));
    assert(carries(states[i + 1].stage, output, matched));
    lemma_carries(states, events, i + 1, j, output, matched);
    assert(states[j].steps_to(events[j], states[j + 1]));
}

/// An execution is reported to match exactly where the values that it committed are
/// the expected ones, padded with zero bytes as its zkVM pads them, whatever the kind
/// of the zkVM is. The report gives the cycles, the cycles of each region and the
/// time that the execution handed back, and says nothing of a proof.
pub proof fn law_execution_matches_iff_the_values_match(
    states: Seq<ProcessState>,
    events: Seq<Event>,
    i: int,
    expected: Vec<u8>,
)
    requires
        trace(states, events),
        0 <= i < events.len(),
        states[i].stage is CompareExecution,
        events[i] == Event::Expected(Ok(expected)),
    ensures
        states[i + 1].stage is WriteReport,
        ({
            let executed = states[i].stage->executed;
            let report = states[i + 1].stage->WriteReport_report;
            report.proving is None && (report.execution matches Some(
                ExecutionMetrics::Success {
                    output_matched,
                    total_num_cycles,
                    region_cycles,
                    execution_duration,
                },
            ) && output_matched == (normalized(states[0].run.zkvm.kind(), expected@)
                == executed.public_values@) && total_num_cycles == executed.total_num_cycles
                && region_cycles == executed.region_cycles && execution_duration
                == executed.execution_duration)
        }),
        ({
            let committed = states[i].stage->executed.public_values@;
            let report = states[i + 1].stage->WriteReport_report;
            let zisk = match states[0].run.zkvm {
                ZkVMInstance::Dockerized { kind, .. } => kind is Zisk,
                ZkVMInstance::ZiskClusterClient { .. } => true,
            };
            let narrow = match states[0].run.zkvm {
                ZkVMInstance::Dockerized { kind, .. } => kind is Airbender || kind is OpenVM,
                ZkVMInstance::ZiskClusterClient { .. } => false,
            };
            let width: int = if zisk {
                256
            } else if narrow {
                32
            } else {
                0
            };
            report.execution->0->Success_output_matched <==> {
                &&& committed.len() >= expected@.len()
                &&& committed.len() >= width
                &&& committed.len() == expected@.len() || committed.len() == width
                &&& forall|k: int| 0 <= k < expected@.len() ==> committed[k] == expected@[k]
                &&& forall|k: int| expected@.len() <= k < committed.len() ==> committed[k] == 0
            }
        }),
{
    lemma_trace(states, events, i);
    assert(states[i].steps_to(events[i], states[i + 1]));
    law_normalized_values_are_expected_bytes_and_zeros(
        states[0].run.zkvm.kind(),
        expected@,
        states[i].stage->executed.public_values@,
    );
}

/// A proof is reported as a success only after it was verified.
pub proof fn law_reported_proofs_were_verified(states: Seq<ProcessState>, events: Seq<Event>, i: int)
    requires
        trace(states, events),
        0 <= i < states.len(),
        states[i].stage is WriteReport,
        states[i].stage->WriteReport_report.proving matches Some(ProvingMetrics::Success { .. }),
    ensures
        exists|j: int|
            0 <= j < i && (#[trigger] states[j]).stage is VerifyProof && events[j] matches Event::Verified(
                Ok(_),
                _,
            ),
{
    lemma_trace(states, events, i);
    assert(i > 0);
    lemma_trace(states, events, i - 1);
    assert(states[i - 1].steps_to(events[i - 1], states[i]));
    assert(states[i - 1].stage is CompareVerification);
    assert(i - 1 > 0);
    assert(states[i - 2].steps_to(events[i - 2], states[i - 1]));
    assert(states[i - 2].stage is VerifyProof);
}

} // verus!
