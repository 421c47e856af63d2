//! What each answer leads to on the way of a fixture and of a benchmark, told from
//! the stage that asked and the answer that came.

use vstd::prelude::*;
use vstd::string::*;

use crate::duration::Duration;
use crate::guest_programs::GuestFixture;
use crate::iteration::{run_benchmark_iter, BenchmarkIter, IterError, IterEvent, IterStage};
use crate::metrics::{BenchmarkRun, ExecutionMetrics, ProvingMetrics};
use crate::output::law_normalized_values_are_expected_bytes_and_zeros;
use crate::process::{
    process_input, CallEnd, Event, ExecutionOutput, Outcome, ProcessInput, ProfileRequest, RunError,
    Stage,
};
use crate::runner::{
    benchmark_output_path, benchmark_zkvm_name, dump_paths, get_panic_msg, hardware_path,
    proof_paths, sub_folder_or_empty, RunConfig,
};
use crate::zkvm::{ProveOutput, ZkVMInstance};

verus! {

/// A fixture sets out under the name and with the metadata that it tells, on the
/// given zkVM and with the given configuration. Its report is looked for first,
/// unless a rerun is forced: then its input is got at once.
pub proof fn law_a_fixture_sets_out<'a, F: GuestFixture>(
    zkvm: &'a ZkVMInstance,
    io: &F,
    config: &'a RunConfig,
    process: ProcessInput<'a>,
    name: &str,
    file: String,
)
    requires
        call_ensures(process_input::<F>, (zkvm, io, config), process),
        name@ == process@.run.fixture_name@,
        call_ensures(benchmark_output_path, (zkvm, config, name), file),
    ensures
        process@.run.zkvm == zkvm,
        process@.run.config == config,
        call_ensures(F::name, (io,), process@.run.fixture_name),
        call_ensures(F::metadata, (io,), process@.run.metadata),
        config.force_rerun ==> process@.stage is LoadInput,
        !config.force_rerun ==> (process@.stage matches Stage::CheckReport { path } && path@
            == file@),
{
}

/// What is shown of a fixture on its way is where it has come to, and it has a
/// result once nothing is left to do.
pub proof fn law_a_fixture_shows_where_it_is<'a>(
    process: ProcessInput<'a>,
    stage: &Stage,
    result: Option<Result<Outcome, RunError>>,
)
    requires
        call_ensures(ProcessInput::stage, (&process,), stage),
        call_ensures(ProcessInput::into_result, (process,), result),
    ensures
        *stage == process@.stage,
        result is Some <==> process@.stage is Finished,
        process@.stage matches Stage::Finished { result: ended } ==> result == Some(ended),
{
}

/// The profiler is asked just where profiling is next: for the ELF of the zkVM, the
/// input at hand, the configured folders and the fixture's name.
pub proof fn law_the_profiler_is_asked_for_the_fixture<'a, 'b>(
    process: &'b ProcessInput<'a>,
    request: Option<ProfileRequest<'b>>,
)
    requires
        call_ensures(ProcessInput::profile_request, (process,), request),
    ensures
        request is Some <==> process@.stage is Profile,
        request is Some ==> {
            let asked = request->0;
            let config = process@.run.config;
            &&& match process@.run.zkvm {
                ZkVMInstance::Dockerized { profiling_elf, .. } => *profiling_elf == Some(
                    *asked.elf,
                ),
                ZkVMInstance::ZiskClusterClient { profiling_elf, .. } => *profiling_elf == Some(
                    *asked.elf,
                ),
            }
            &&& *asked.input == process@.stage->Profile_input
            &&& config.zisk_profile_config is Some
            &&& asked.output_folder@ == config.zisk_profile_config->0.output_folder@
            &&& asked.sub_folder is Some <==> config.sub_folder is Some
            &&& asked.sub_folder is Some ==> asked.sub_folder->0@ == config.sub_folder->0@
            &&& asked.fixture_name@ == process@.run.fixture_name@
        },
{
}

/// Every stage takes the answer to what it asks for, whatever the answer says.
pub proof fn law_every_answer_is_taken<'a>(process: ProcessInput<'a>, event: Event)
    requires
        match event {
            Event::Exists(_) => process@.stage is CheckReport || process@.stage is CheckDump,
            Event::Done(_) => process@.stage is CreateDumpDir || process@.stage is WriteDump
                || process@.stage is CreateProofDir || process@.stage is WriteProof
                || process@.stage is WriteReport,
            Event::Input(_) => process@.stage is LoadInput,
            Event::Profiled(_) => process@.stage is Profile,
            Event::Executed(_) => process@.stage is Execute,
            Event::Proved(_) => process@.stage is Prove,
            Event::Expected(_) => process@.stage is CompareExecution || process@.stage
                is CompareProof || process@.stage is CompareVerification,
            Event::Verified(_, _) => process@.stage is VerifyProof,
        },
    ensures
        call_requires(ProcessInput::step, (process, event)),
{
}

/// The fixture, the zkVM and the configuration stay on the way, and what has ended
/// is not answered.
pub proof fn law_the_way_is_of_one_fixture<'a>(
    process: ProcessInput<'a>,
    event: Event,
    next: ProcessInput<'a>,
)
    requires
        call_ensures(ProcessInput::step, (process, event), next),
    ensures
        next@.run == process@.run,
        !(process@.stage is Finished),
{
}

/// A report that exists ends the way, and its fixture is skipped. One that does not
/// lets the input be got.
pub proof fn law_an_existing_report_decides<'a>(
    process: ProcessInput<'a>,
    exists: bool,
    next: ProcessInput<'a>,
)
    requires
        call_ensures(ProcessInput::step, (process, Event::Exists(exists)), next),
        process@.stage is CheckReport,
    ensures
        exists ==> next@.stage == (Stage::Finished { result: Ok(Outcome::Skipped) }),
        !exists ==> next@.stage is LoadInput,
{
}

/// An input is dumped where a folder is configured for that: its directory is made
/// first, for the file of the fixture. An input that cannot be had ends the way.
pub proof fn law_an_input_is_dumped_where_asked<'a>(
    process: ProcessInput<'a>,
    answer: Result<Vec<u8>, String>,
    next: ProcessInput<'a>,
    folder: &str,
    sub_folder: &str,
    name: &str,
    paths: (String, String),
)
    requires
        call_ensures(ProcessInput::step, (process, Event::Input(answer)), next),
        call_ensures(sub_folder_or_empty, (process@.run.config,), sub_folder),
        process@.run.config.dump_inputs_folder is Some ==> folder@
            == process@.run.config.dump_inputs_folder->0@,
        name@ == process@.run.fixture_name@,
        call_ensures(dump_paths, (folder, sub_folder, name), paths),
    ensures
        answer is Err ==> next@.stage == (Stage::Finished {
            result: Err(RunError::Input(answer->Err_0)),
        }),
        answer is Ok && process@.run.config.dump_inputs_folder is Some ==> (
        next@.stage matches Stage::CreateDumpDir { dir, path, input } && dir@ == paths.0@ && path@
            == paths.1@ && input == answer->Ok_0),
        answer is Ok && process@.run.config.dump_inputs_folder is None ==> !(next@.stage
            is CreateDumpDir || next@.stage is CheckDump || next@.stage is WriteDump),
{
}

/// Once its directory is made, the dump is looked for; it is written only where it
/// is not there. A failure ends the way and names the directory or the file.
pub proof fn law_a_dump_is_written_once<'a>(
    process: ProcessInput<'a>,
    event: Event,
    next: ProcessInput<'a>,
)
    requires
        call_ensures(ProcessInput::step, (process, event), next),
    ensures
        process@.stage matches Stage::CreateDumpDir { dir, path, input } ==> (
        event matches Event::Done(answer) && if answer is Ok {
            next@.stage == (Stage::CheckDump { path, input })
        } else {
            next@.stage == (Stage::Finished {
                result: Err(RunError::CreateDir { path: dir, error: answer->Err_0 }),
            })
        }),
        process@.stage matches Stage::CheckDump { path, input } ==> (event == Event::Exists(false)
            ==> next@.stage == (Stage::WriteDump { path, input })) && (event == Event::Exists(true)
            ==> !(next@.stage is WriteDump)),
        process@.stage matches Stage::WriteDump { path, .. } ==> (event matches Event::Done(
            answer,
        ) && (answer is Err ==> next@.stage == (Stage::Finished {
            result: Err(RunError::WriteInput { path, error: answer->Err_0 }),
        }))),
{
}

/// Once the input is at hand and dumped where that is asked for, the action begins
/// with this very input. A proof is made of it at once. An execution is profiled
/// first where profiling is configured, which needs the ELF for it. Verifying is no
/// action for a fixture.
pub proof fn law_the_action_begins_with_the_input<'a>(
    process: ProcessInput<'a>,
    event: Event,
    next: ProcessInput<'a>,
    input: Vec<u8>,
)
    requires
        call_ensures(ProcessInput::step, (process, event), next),
        match process@.stage {
            Stage::LoadInput => event == Event::Input(Ok(input))
                && process@.run.config.dump_inputs_folder is None,
            Stage::CheckDump { input: kept, .. } => kept == input && event == Event::Exists(true),
            Stage::WriteDump { input: kept, .. } => kept == input && (event matches Event::Done(
                Ok(_),
            )),
            _ => false,
        },
    ensures
        ({
            let config = process@.run.config;
            let (elf, cluster) = match process@.run.zkvm {
                ZkVMInstance::Dockerized { profiling_elf, .. } => (profiling_elf is Some, false),
                ZkVMInstance::ZiskClusterClient { profiling_elf, .. } => (
                    profiling_elf is Some,
                    true,
                ),
            };
            &&& config.action is Prove ==> next@.stage == (Stage::Prove { input })
            &&& config.action is Verify ==> next@.stage == (Stage::Finished {
                result: Err(RunError::VerifyRequested),
            })
            &&& config.action is Execute && config.zisk_profile_config is Some && elf ==> next@.stage
                == (Stage::Profile { input })
            &&& config.action is Execute && config.zisk_profile_config is Some && !elf
                ==> next@.stage == (Stage::Finished { result: Err(RunError::ProfilingElfMissing) })
            &&& config.action is Execute && config.zisk_profile_config is None && !cluster
                ==> next@.stage == (Stage::Execute { input })
            &&& config.action is Execute && config.zisk_profile_config is None && cluster
                ==> next@.stage is WriteReport
        }),
{
}

/// After profiling, however it ended, a dockerized zkVM executes the guest on the
/// same input, and a cluster client reports a crash.
pub proof fn law_profiling_is_followed_by_the_execution<'a>(
    process: ProcessInput<'a>,
    event: Event,
    next: ProcessInput<'a>,
    input: Vec<u8>,
)
    requires
        call_ensures(ProcessInput::step, (process, event), next),
        process@.stage == (Stage::Profile { input }),
    ensures
        process@.run.zkvm is Dockerized ==> next@.stage == (Stage::Execute { input }),
        process@.run.zkvm is ZiskClusterClient ==> next@.stage is WriteReport,
{
}

/// A cluster client never executes: its report says that the execution crashed, and
/// that a cluster does not execute.
pub proof fn law_clusters_report_that_they_do_not_execute<'a>(
    process: ProcessInput<'a>,
    event: Event,
    next: ProcessInput<'a>,
    report: BenchmarkRun,
)
    requires
        call_ensures(ProcessInput::step, (process, event), next),
        process@.run.zkvm is ZiskClusterClient,
        process@.stage is LoadInput || process@.stage is CheckDump || process@.stage is WriteDump
            || process@.stage is Profile,
        next@.stage matches Stage::WriteReport { report: written, .. } && written == report,
    ensures
        report.proving is None,
        report.execution matches Some(ExecutionMetrics::Crashed(crash)) && crash.reason@
            == "ZiskClusterClient does not support Action::Execute"@,
{
}

/// Every report is filed under the fixture's name for its zkVM, carries the name and
/// the metadata of the fixture, and says nothing of a verification.
pub proof fn law_every_report_is_the_fixtures_own<'a>(
    process: ProcessInput<'a>,
    event: Event,
    next: ProcessInput<'a>,
    name: &str,
    file: String,
)
    requires
        call_ensures(ProcessInput::step, (process, event), next),
        next@.stage is WriteReport,
        name@ == process@.run.fixture_name@,
        call_ensures(
            benchmark_output_path,
            (process@.run.zkvm, process@.run.config, name),
            file,
        ),
    ensures
        next@.stage matches Stage::WriteReport { path, report } && path@ == file@ && report.name@
            == process@.run.fixture_name@ && report.metadata@ == process@.run.metadata@
            && report.verification is None && (report.execution is Some <==> report.proving
            is None),
{
}

/// What an execution hands back is compared. One that failed or panicked is reported
/// as a crash, for the reason that it gave.
pub proof fn law_how_an_execution_ends_is_told<'a>(
    process: ProcessInput<'a>,
    end: CallEnd<ExecutionOutput>,
    next: ProcessInput<'a>,
    said: String,
)
    requires
        call_ensures(ProcessInput::step, (process, Event::Executed(end)), next),
        end matches CallEnd::Panicked(payload) ==> call_ensures(get_panic_msg, (payload,), said),
    ensures
        end matches CallEnd::Returned(output) ==> next@.stage == (Stage::CompareExecution {
            executed: output,
        }),
        end matches CallEnd::Failed(reason) ==> (next@.stage matches Stage::WriteReport {
            report,
            ..
        } && (report.execution matches Some(ExecutionMetrics::Crashed(crash)) && crash.reason@
            == reason@) && report.proving is None),
        end is Panicked ==> (next@.stage matches Stage::WriteReport { report, .. } && (
        report.execution matches Some(ExecutionMetrics::Crashed(crash)) && crash.reason@ == said@)
            && report.proving is None),
{
}

/// What the prover hands back is compared. Proving that failed or panicked is
/// reported as a crash, for the reason that it gave.
pub proof fn law_how_proving_ends_is_told<'a>(
    process: ProcessInput<'a>,
    end: CallEnd<ProveOutput>,
    next: ProcessInput<'a>,
    said: String,
)
    requires
        call_ensures(ProcessInput::step, (process, Event::Proved(end)), next),
        end matches CallEnd::Panicked(payload) ==> call_ensures(get_panic_msg, (payload,), said),
    ensures
        end matches CallEnd::Returned(output) ==> next@.stage == (Stage::CompareProof { output }),
        end matches CallEnd::Failed(reason) ==> (next@.stage matches Stage::WriteReport {
            report,
            ..
        } && (report.proving matches Some(ProvingMetrics::Crashed(crash)) && crash.reason@
            == reason@) && report.execution is None),
        end is Panicked ==> (next@.stage matches Stage::WriteReport { report, .. } && (
        report.proving matches Some(ProvingMetrics::Crashed(crash)) && crash.reason@ == said@)
            && report.execution is None),
{
}

/// An execution is reported as it went: with its cycles, its regions and its time,
/// and as matching just where it committed the expected values, padded as its zkVM
/// pads them.
pub proof fn law_an_execution_is_reported_as_it_went<'a>(
    process: ProcessInput<'a>,
    answer: Result<Vec<u8>, String>,
    next: ProcessInput<'a>,
)
    requires
        call_ensures(ProcessInput::step, (process, Event::Expected(answer)), next),
        process@.stage is CompareExecution,
    ensures
        answer is Err ==> next@.stage == (Stage::Finished {
            result: Err(RunError::CompareExecution(answer->Err_0)),
        }),
        answer is Ok ==> ({
            let executed = process@.stage->executed;
            let committed = executed.public_values@;
            let expected = answer->Ok_0@;
            let width: int = match process@.run.zkvm {
                ZkVMInstance::Dockerized { kind, .. } => if kind is Zisk {
                    256
                } else if kind is Airbender || kind is OpenVM {
                    32
                } else {
                    0
                },
                ZkVMInstance::ZiskClusterClient { .. } => 256,
            };
            next@.stage matches Stage::WriteReport { report, .. } && report.proving is None && (
            report.execution matches Some(
                ExecutionMetrics::Success {
                    output_matched,
                    total_num_cycles,
                    region_cycles,
                    execution_duration,
                },
            ) && total_num_cycles == executed.total_num_cycles && region_cycles
                == executed.region_cycles && execution_duration == executed.execution_duration && (
            output_matched <==> {
                &&& committed.len() >= expected.len()
                &&& committed.len() >= width
                &&& committed.len() == expected.len() || committed.len() == width
                &&& forall|i: int| 0 <= i < expected.len() ==> committed[i] == expected[i]
                &&& forall|i: int| expected.len() <= i < committed.len() ==> committed[i] == 0
            }))
        }),
{
    if answer is Ok {
        law_normalized_values_are_expected_bytes_and_zeros(
            process@.run.zkvm.kind(),
            answer->Ok_0@,
            process@.stage->executed.public_values@,
        );
    }
}

/// What the prover handed back goes on unchanged, with a note whether it commits to
/// the expected values, padded as the zkVM pads them. The proof is saved where a
/// folder is configured for that, in the file of the fixture and the zkVM.
pub proof fn law_a_proof_is_compared_and_saved_where_asked<'a>(
    process: ProcessInput<'a>,
    answer: Result<Vec<u8>, String>,
    next: ProcessInput<'a>,
    folder: &str,
    sub_folder: &str,
    filed: String,
    zkvm_name: &str,
    name: &str,
    paths: (String, String),
)
    requires
        call_ensures(ProcessInput::step, (process, Event::Expected(answer)), next),
        process@.stage is CompareProof,
        process@.run.config.save_proofs_folder is Some ==> folder@
            == process@.run.config.save_proofs_folder->0@,
        call_ensures(sub_folder_or_empty, (process@.run.config,), sub_folder),
        call_ensures(benchmark_zkvm_name, (process@.run.zkvm,), filed),
        zkvm_name@ == filed@,
        name@ == process@.run.fixture_name@,
        call_ensures(proof_paths, (folder, sub_folder, zkvm_name, name), paths),
    ensures
        answer is Err ==> next@.stage == (Stage::Finished {
            result: Err(RunError::CompareProof(answer->Err_0)),
        }),
        answer is Ok ==> ({
            let proved = process@.stage->CompareProof_output;
            let committed = proved.public_values@;
            let expected = answer->Ok_0@;
            let width: int = match process@.run.zkvm {
                ZkVMInstance::Dockerized { kind, .. } => if kind is Zisk {
                    256
                } else if kind is Airbender || kind is OpenVM {
                    32
                } else {
                    0
                },
                ZkVMInstance::ZiskClusterClient { .. } => 256,
            };
            let matching = {
                &&& committed.len() >= expected.len()
                &&& committed.len() >= width
                &&& committed.len() == expected.len() || committed.len() == width
                &&& forall|i: int| 0 <= i < expected.len() ==> committed[i] == expected[i]
                &&& forall|i: int| expected.len() <= i < committed.len() ==> committed[i] == 0
            };
            if process@.run.config.save_proofs_folder is Some {
                next@.stage matches Stage::CreateProofDir { dir, path, output, matched } && dir@
                    == paths.0@ && path@ == paths.1@ && output == proved && matched == matching
            } else {
                next@.stage matches Stage::VerifyProof { output, matched } && output == proved
                    && matched == matching
            }
        }),
{
    if answer is Ok {
        law_normalized_values_are_expected_bytes_and_zeros(
            process@.run.zkvm.kind(),
            answer->Ok_0@,
            process@.stage->CompareProof_output.public_values@,
        );
    }
}

/// A saved proof is written to its file once the directory is made, and verified
/// once it is written; what the prover handed back and what was noted of it stay. A
/// failure ends the way and names the directory or the file.
pub proof fn law_a_saved_proof_is_verified<'a>(
    process: ProcessInput<'a>,
    answer: Result<(), String>,
    next: ProcessInput<'a>,
)
    requires
        call_ensures(ProcessInput::step, (process, Event::Done(answer)), next),
    ensures
        process@.stage matches Stage::CreateProofDir { dir, path, output, matched } ==> if answer
            is Ok {
            next@.stage == (Stage::WriteProof { path, output, matched })
        } else {
            next@.stage == (Stage::Finished {
                result: Err(RunError::CreateDir { path: dir, error: answer->Err_0 }),
            })
        },
        process@.stage matches Stage::WriteProof { path, output, matched } ==> if answer is Ok {
            next@.stage == (Stage::VerifyProof { output, matched })
        } else {
            next@.stage == (Stage::Finished {
                result: Err(RunError::WriteProof { path, error: answer->Err_0 }),
            })
        },
{
}

/// What the verifier gives is compared, with the time that it took. A proof that
/// cannot be verified ends the way.
pub proof fn law_a_verified_proof_is_compared<'a>(
    process: ProcessInput<'a>,
    answer: Result<Vec<u8>, String>,
    millis: u128,
    next: ProcessInput<'a>,
)
    requires
        call_ensures(ProcessInput::step, (process, Event::Verified(answer, millis)), next),
    ensures
        process@.stage matches Stage::VerifyProof { output, matched } && if answer is Ok {
            next@.stage == (Stage::CompareVerification {
                output,
                matched,
                values: answer->Ok_0,
                millis,
            })
        } else {
            next@.stage == (Stage::Finished { result: Err(RunError::VerifyProof(answer->Err_0)) })
        },
{
}

/// A proof is reported as it went: with its size, the whole milliseconds of proving
/// and the time of verifying. It is reported as matching just where that was noted
/// of the prover and the verifier gave the expected values, padded as the zkVM pads
/// them.
pub proof fn law_a_proof_is_reported_as_it_went<'a>(
    process: ProcessInput<'a>,
    answer: Result<Vec<u8>, String>,
    next: ProcessInput<'a>,
    proving_millis: u128,
)
    requires
        call_ensures(ProcessInput::step, (process, Event::Expected(answer)), next),
        process@.stage is CompareVerification,
        call_ensures(
            Duration::as_millis,
            (&process@.stage->CompareVerification_output.proving_time,),
            proving_millis,
        ),
    ensures
        answer is Err ==> next@.stage == (Stage::Finished {
            result: Err(RunError::CompareVerification(answer->Err_0)),
        }),
        answer is Ok ==> ({
            let proved = process@.stage->CompareVerification_output;
            let committed = process@.stage->values@;
            let expected = answer->Ok_0@;
            let width: int = match process@.run.zkvm {
                ZkVMInstance::Dockerized { kind, .. } => if kind is Zisk {
                    256
                } else if kind is Airbender || kind is OpenVM {
                    32
                } else {
                    0
                },
                ZkVMInstance::ZiskClusterClient { .. } => 256,
            };
            next@.stage matches Stage::WriteReport { report, .. } && report.execution is None && (
            report.proving matches Some(
                ProvingMetrics::Success {
                    output_matched,
                    proof_size,
                    proving_time_ms,
                    verification_time_ms,
                },
            ) && proof_size == proved.proof@.len() && proving_time_ms == proving_millis
                && verification_time_ms == process@.stage->millis && (output_matched <==> {
                &&& process@.stage->CompareVerification_matched
                &&& committed.len() >= expected.len()
                &&& committed.len() >= width
                &&& committed.len() == expected.len() || committed.len() == width
                &&& forall|i: int| 0 <= i < expected.len() ==> committed[i] == expected[i]
                &&& forall|i: int| expected.len() <= i < committed.len() ==> committed[i] == 0
            }))
        }),
{
    if answer is Ok {
        let proved = process@.stage->CompareVerification_output;
        assert(proved.proof@.len() == proved.proof.len());
        law_normalized_values_are_expected_bytes_and_zeros(
            process@.run.zkvm.kind(),
            answer->Ok_0@,
            process@.stage->values@,
        );
    }
}

/// The way ends well once the report is written, and with the cause where it could
/// not be.
pub proof fn law_the_way_ends_with_the_report<'a>(
    process: ProcessInput<'a>,
    answer: Result<(), String>,
    next: ProcessInput<'a>,
)
    requires
        call_ensures(ProcessInput::step, (process, Event::Done(answer)), next),
        process@.stage is WriteReport,
    ensures
        answer is Ok ==> next@.stage == (Stage::Finished { result: Ok(Outcome::Reported) }),
        answer is Err ==> next@.stage == (Stage::Finished {
            result: Err(RunError::WriteReport(answer->Err_0)),
        }),
{
}

/// The message of a failed run says what failed, and names the directory or the file
/// where there is one.
pub proof fn law_failed_runs_are_told(failure: RunError, message: String)
    requires
        call_ensures(RunError::message, (&failure,), message),
    ensures
        failure matches RunError::Input(error) ==> message@ == error@,
        failure matches RunError::WriteReport(error) ==> message@ == error@,
        failure matches RunError::CreateDir { path, .. } ==> message@
            == "Failed to create directory: "@ + path@,
        failure matches RunError::WriteInput { path, .. } ==> message@
            == "Failed to write input to "@ + path@,
        failure matches RunError::WriteProof { path, .. } ==> message@
            == "Failed to write proof to "@ + path@,
        failure is ProfilingElfMissing ==> message@
            == "Zisk profiling configured but profiling ELF not found"@,
        failure is CompareExecution ==> message@
            == "Failed to compare public output from execution"@,
        failure is CompareProof ==> message@ == "Failed to compare public output from proof"@,
        failure is VerifyProof ==> message@ == "Failed to verify proof"@,
        failure is CompareVerification ==> message@
            == "Failed to compare public output from proof verification"@,
        failure is VerifyRequested ==> message@
            == "process_input should not be called with Action::Verify, use run_verify_from_disk"@,
{
}

/// A benchmark begins with the description of the hardware, for the configured
/// action.
pub proof fn law_a_benchmark_begins_with_the_hardware(
    config: &RunConfig,
    benchmark: BenchmarkIter,
    file: String,
)
    requires
        call_ensures(run_benchmark_iter, (config,), benchmark),
        call_ensures(hardware_path, (config,), file),
    ensures
        benchmark@.action == config.action,
        benchmark@.stage matches IterStage::WriteHardware { path } && path@ == file@,
{
}

/// What is shown of a benchmark is where it has come to, and it has a result once
/// nothing is left to do.
pub proof fn law_a_benchmark_shows_where_it_is(
    benchmark: BenchmarkIter,
    stage: &IterStage,
    result: Option<Result<(), IterError>>,
)
    requires
        call_ensures(BenchmarkIter::stage, (&benchmark,), stage),
        call_ensures(BenchmarkIter::into_result, (benchmark,), result),
    ensures
        *stage == benchmark@.stage,
        result is Some <==> benchmark@.stage is Finished,
        benchmark@.stage matches IterStage::Finished { result: ended } ==> result == Some(ended),
{
}

/// Every stage of a benchmark takes the answer to what it asks for.
pub proof fn law_every_answer_to_a_benchmark_is_taken(benchmark: BenchmarkIter, event: IterEvent)
    requires
        match event {
            IterEvent::Done(_) => benchmark@.stage is WriteHardware,
            IterEvent::Drained(_) => benchmark@.stage is RunParallel,
            IterEvent::Input(_) => benchmark@.stage is NextInput,
            IterEvent::Processed(_) => benchmark@.stage is Process,
        },
    ensures
        call_requires(BenchmarkIter::step, (benchmark, event)),
{
}

/// Behind the description of the hardware, fixtures are executed side by side and
/// proved one after the other, each got and then run until there is none. The first
/// failure ends the benchmark, with its cause. Verifying is no action for fixtures.
pub proof fn law_a_benchmark_goes_through_its_fixtures(
    benchmark: BenchmarkIter,
    event: IterEvent,
    next: BenchmarkIter,
)
    requires
        call_ensures(BenchmarkIter::step, (benchmark, event), next),
    ensures
        next@.action == benchmark@.action,
        !(benchmark@.stage is Finished),
        event matches IterEvent::Done(Ok(_)) ==> {
            &&& benchmark@.action is Execute ==> next@.stage is RunParallel
            &&& benchmark@.action is Prove ==> next@.stage is NextInput
            &&& benchmark@.action is Verify ==> next@.stage == (IterStage::Finished {
                result: Err(IterError::VerifyRequested),
            })
        },
        event matches IterEvent::Done(Err(error)) ==> next@.stage == (IterStage::Finished {
            result: Err(IterError::Hardware(error)),
        }),
        event matches IterEvent::Drained(result) ==> next@.stage == (IterStage::Finished {
            result,
        }),
        event matches IterEvent::Input(None) ==> (next@.stage matches IterStage::Finished {
            result,
        } && result is Ok),
        event matches IterEvent::Input(Some(Ok(_))) ==> next@.stage is Process,
        event matches IterEvent::Input(Some(Err(error))) ==> next@.stage == (IterStage::Finished {
            result: Err(IterError::Input(error)),
        }),
        event matches IterEvent::Processed(Ok(_)) ==> next@.stage is NextInput,
        event matches IterEvent::Processed(Err(error)) ==> next@.stage == (IterStage::Finished {
            result: Err(IterError::Run(error)),
        }),
{
}

/// The message of a failed benchmark is that of its cause.
pub proof fn law_failed_benchmarks_are_told(failure: IterError, message: String, cause: String)
    requires
        call_ensures(IterError::message, (&failure,), message),
        failure matches IterError::Run(error) ==> call_ensures(RunError::message, (&error,), cause),
    ensures
        failure matches IterError::Hardware(error) ==> message@ == error@,
        failure matches IterError::Input(error) ==> message@ == error@,
        failure is Run ==> message@ == cause@,
        failure is VerifyRequested ==> message@
            == "run_benchmark_iter should not be called with Action::Verify, use run_verify_from_disk"@,
{
}

} // verus!
