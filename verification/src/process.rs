//! The course of one fixture through a zkVM: which file, which backend call and
//! which comparison comes next, and what the report finally says.

use vstd::prelude::*;
use vstd::string::*;

use crate::duration::Duration;
use crate::guest_programs::GuestFixture;
use crate::metrics::{BenchmarkRun, CrashInfo, ExecutionMetrics, ProvingMetrics};
use crate::output::{normalized, output_matched};
use crate::runner::{
    benchmark_output_path, benchmark_zkvm_name, dump_dir, dump_path, dump_paths, get_panic_msg,
    output_path, panic_message, proof_dir, proof_path, proof_paths, sub_folder_or_empty,
    sub_folder_text, zkvm_file_name, Action, PanicPayload, RunConfig,
};
use crate::text::concat2;
use crate::zkvm::{cluster_execute_refusal, ProveOutput, ZkVMInstance};

verus! {

/// What a successful execution hands back.
#[derive(Debug)]
pub struct ExecutionOutput {
    /// The public values that the guest committed.
    pub public_values: Vec<u8>,
    /// The cycles that it took.
    pub total_num_cycles: u64,
    /// The cycles of each named region.
    pub region_cycles: Vec<(String, u64)>,
    /// The time that it took.
    pub execution_duration: Duration,
}

/// How a guarded backend call ended.
#[derive(Debug)]
pub enum CallEnd<T> {
    /// It returned a value.
    Returned(T),
    /// It returned an error with this text.
    Failed(String),
    /// It panicked.
    Panicked(PanicPayload),
}

/// How Zisk profiling ended.
#[derive(Debug)]
pub enum ProfileOutcome {
    /// A profile was made.
    Completed,
    /// No profile was made, for this reason.
    Failed(String),
}

/// Why the run of a fixture failed.
#[derive(Debug)]
pub enum RunError {
    /// The fixture has no input.
    Input(String),
    /// A directory could not be made.
    CreateDir {
        /// The directory
        path: String,
        /// The cause
        error: String,
    },
    /// The dump of the input could not be written.
    WriteInput {
        /// The file
        path: String,
        /// The cause
        error: String,
    },
    /// The proof could not be written.
    WriteProof {
        /// The file
        path: String,
        /// The cause
        error: String,
    },
    /// Profiling is configured, and the instance has no ELF for it.
    ProfilingElfMissing,
    /// The fixture could not say what the execution should commit.
    CompareExecution(String),
    /// The fixture could not say what the proof should commit to.
    CompareProof(String),
    /// The proof could not be verified.
    VerifyProof(String),
    /// The fixture could not say what the verified proof should commit to.
    CompareVerification(String),
    /// Fixtures are not run to verify proofs.
    VerifyRequested,
    /// The report could not be written.
    WriteReport(String),
}

impl RunError {
    /// The text of the failure.
    pub open spec fn text(&self) -> Seq<char> {
        match self {
            RunError::Input(error) => error@,
            RunError::CreateDir { path, .. } => "Failed to create directory: "@ + path@,
            RunError::WriteInput { path, .. } => "Failed to write input to "@ + path@,
            RunError::WriteProof { path, .. } => "Failed to write proof to "@ + path@,
            RunError::ProfilingElfMissing =>
                "Zisk profiling configured but profiling ELF not found"@,
            RunError::CompareExecution(_) => "Failed to compare public output from execution"@,
            RunError::CompareProof(_) => "Failed to compare public output from proof"@,
            RunError::VerifyProof(_) => "Failed to verify proof"@,
            RunError::CompareVerification(_) =>
                "Failed to compare public output from proof verification"@,
            RunError::VerifyRequested =>
                "process_input should not be called with Action::Verify, use run_verify_from_disk"@,
            RunError::WriteReport(error) => error@,
        }
    }

    /// The text of the failure.
    pub fn message(&self) -> (message: String)
        ensures
            message@ == self.text(),
    {
        match self {
            RunError::Input(error) => error.clone(),
            RunError::CreateDir { path, .. } => concat2(
                "Failed to create directory: ",
                path.as_str(),
            ),
            RunError::WriteInput { path, .. } => concat2("Failed to write input to ", path.as_str()),
            RunError::WriteProof { path, .. } => concat2("Failed to write proof to ", path.as_str()),
            RunError::ProfilingElfMissing =>
                "Zisk profiling configured but profiling ELF not found".to_owned(),
            RunError::CompareExecution(_) =>
                "Failed to compare public output from execution".to_owned(),
            RunError::CompareProof(_) => "Failed to compare public output from proof".to_owned(),
            RunError::VerifyProof(_) => "Failed to verify proof".to_owned(),
            RunError::CompareVerification(_) =>
                "Failed to compare public output from proof verification".to_owned(),
            RunError::VerifyRequested =>
                "process_input should not be called with Action::Verify, use run_verify_from_disk".to_owned(),
            RunError::WriteReport(error) => error.clone(),
        }
    }
}

/// How the run of a fixture ended well.
#[derive(Debug, Clone, Copy, PartialEq, Eq, Structural)]
pub enum Outcome {
    /// Its report was there already.
    Skipped,
    /// Its report was written.
    Reported,
}

/// What is to be done next for a fixture.
#[derive(Debug)]
pub enum Stage {
    /// Find out whether the report `path` exists.
    CheckReport {
        /// The report
        path: String,
    },
    /// Get the input of the fixture.
    LoadInput,
    /// Make the directory `dir` with all its parents.
    CreateDumpDir {
        /// The directory
        dir: String,
        /// The file that the input is for
        path: String,
        /// The input
        input: Vec<u8>,
    },
    /// Find out whether the file `path` exists.
    CheckDump {
        /// The file
        path: String,
        /// The input
        input: Vec<u8>,
    },
    /// Write `input` to `path`.
    WriteDump {
        /// The file
        path: String,
        /// The input
        input: Vec<u8>,
    },
    /// Profile the guest on `input`.
    Profile {
        /// The input
        input: Vec<u8>,
    },
    /// Execute the guest on `input`.
    Execute {
        /// The input
        input: Vec<u8>,
    },
    /// Get the expected public values, for the ones of the execution.
    CompareExecution {
        /// What the execution handed back
        executed: ExecutionOutput,
    },
    /// Prove the guest on `input`.
    Prove {
        /// The input
        input: Vec<u8>,
    },
    /// Get the expected public values, for the ones of the prover.
    CompareProof {
        /// What the prover handed back
        output: ProveOutput,
    },
    /// Make the directory `dir` with all its parents.
    CreateProofDir {
        /// The directory
        dir: String,
        /// The file that the proof is for
        path: String,
        /// What the prover handed back
        output: ProveOutput,
        /// Whether the prover gave the expected public values
        matched: bool,
    },
    /// Write the proof to `path`.
    WriteProof {
        /// The file
        path: String,
        /// What the prover handed back
        output: ProveOutput,
        /// Whether the prover gave the expected public values
        matched: bool,
    },
    /// Verify the proof and take the time.
    VerifyProof {
        /// What the prover handed back
        output: ProveOutput,
        /// Whether the prover gave the expected public values
        matched: bool,
    },
    /// Get the expected public values, for the ones of the verifier.
    CompareVerification {
        /// What the prover handed back
        output: ProveOutput,
        /// Whether the prover gave the expected public values
        matched: bool,
        /// The public values that the verifier gave
        values: Vec<u8>,
        /// The time of verifying, in whole milliseconds
        millis: u128,
    },
    /// Write the report to `path`.
    WriteReport {
        /// The file
        path: String,
        /// The report
        report: BenchmarkRun,
    },
    /// Nothing is left to do.
    Finished {
        /// How the run ended
        result: Result<Outcome, RunError>,
    },
}

/// The answer to what a stage asks for.
#[derive(Debug)]
pub enum Event {
    /// Whether the file exists.
    Exists(bool),
    /// Whether the directory was made or the file was written.
    Done(Result<(), String>),
    /// The input of the fixture.
    Input(Result<Vec<u8>, String>),
    /// How profiling ended.
    Profiled(ProfileOutcome),
    /// How the execution ended.
    Executed(CallEnd<ExecutionOutput>),
    /// How proving ended.
    Proved(CallEnd<ProveOutput>),
    /// The public values that the fixture expects.
    Expected(Result<Vec<u8>, String>),
    /// The public values of the verified proof, and the time of verifying in
    /// whole milliseconds.
    Verified(Result<Vec<u8>, String>, u128),
}

impl Stage {
    /// Whether `event` answers what this stage asks for.
    pub open spec fn accepts(&self, event: Event) -> bool {
        match self {
            Stage::CheckReport { .. } | Stage::CheckDump { .. } => event is Exists,
            Stage::CreateDumpDir { .. }
            | Stage::WriteDump { .. }
            | Stage::CreateProofDir { .. }
            | Stage::WriteProof { .. }
            | Stage::WriteReport { .. } => event is Done,
            Stage::LoadInput => event is Input,
            Stage::Profile { .. } => event is Profiled,
            Stage::Execute { .. } => event is Executed,
            Stage::Prove { .. } => event is Proved,
            Stage::CompareExecution { .. }
            | Stage::CompareProof { .. }
            | Stage::CompareVerification { .. } => event is Expected,
            Stage::VerifyProof { .. } => event is Verified,
            Stage::Finished { .. } => false,
        }
    }
}

/// The stage of a run that has failed.
pub open spec fn failed(error: RunError) -> Stage {
    Stage::Finished { result: Err(error) }
}

/// One fixture that is run on one zkVM.
pub struct FixtureRun<'a> {
    /// The zkVM
    pub zkvm: &'a ZkVMInstance,
    /// The configuration of the run
    pub config: &'a RunConfig,
    /// The name of the fixture
    pub fixture_name: String,
    /// What the fixture says of itself, as JSON
    pub metadata: String,
}

impl<'a> FixtureRun<'a> {
    /// The file of the fixture's report.
    pub open spec fn report_file(&self) -> Seq<char> {
        output_path(self.config, zkvm_file_name(self.zkvm), self.fixture_name@)
    }

    /// Whether `stage` writes the report of this fixture, with its metadata and
    /// just the given metrics in it.
    pub open spec fn reports(
        &self,
        stage: Stage,
        execution: Option<ExecutionMetrics>,
        proving: Option<ProvingMetrics>,
    ) -> bool {
        stage matches Stage::WriteReport { path, report } && path@ == self.report_file()
            && report.name@ == self.fixture_name@ && report.metadata@ == self.metadata@
            && report.execution == execution && report.proving == proving && report.verification
            is None
    }

    /// Whether `stage` writes a report that says that the execution crashed for
    /// `reason`.
    pub open spec fn reports_execution_crash(&self, stage: Stage, reason: Seq<char>) -> bool {
        exists|crash: CrashInfo| #[trigger]
            self.reports(stage, Some(ExecutionMetrics::Crashed(crash)), None) && crash.reason@
                == reason
    }

    /// Whether `stage` writes a report that says that proving crashed for
    /// `reason`.
    pub open spec fn reports_proving_crash(&self, stage: Stage, reason: Seq<char>) -> bool {
        exists|crash: CrashInfo| #[trigger]
            self.reports(stage, None, Some(ProvingMetrics::Crashed(crash))) && crash.reason@
                == reason
    }

    /// Whether `stage` comes first: without a forced rerun the report is looked
    /// for before anything else.
    pub open spec fn first(&self, stage: Stage) -> bool {
        if self.config.force_rerun {
            stage is LoadInput
        } else {
            stage matches Stage::CheckReport { path } && path@ == self.report_file()
        }
    }

    /// Whether `stage` comes once the input is there: it is dumped where that is
    /// asked for.
    pub open spec fn after_input(&self, input: Vec<u8>, stage: Stage) -> bool {
        match self.config.dump_inputs_folder {
            Some(folder) => {
                let sub_folder = sub_folder_text(self.config.sub_folder);
                stage matches Stage::CreateDumpDir { dir, path, input: kept } && dir@ == dump_dir(
                    folder@,
                    sub_folder,
                ) && path@ == dump_path(folder@, sub_folder, self.fixture_name@) && kept == input
            },
            None => self.after_dump(input, stage),
        }
    }

    /// Whether `stage` comes once the input is dumped: the action begins.
    pub open spec fn after_dump(&self, input: Vec<u8>, stage: Stage) -> bool {
        match self.config.action {
            Action::Execute => match self.config.zisk_profile_config {
                Some(_) => if self.zkvm.elf() is Some {
                    stage == (Stage::Profile { input })
                } else {
                    stage == failed(RunError::ProfilingElfMissing)
                },
                None => self.after_profile(input, stage),
            },
            Action::Prove => stage == (Stage::Prove { input }),
            Action::Verify => stage == failed(RunError::VerifyRequested),
        }
    }

    /// Whether `stage` comes once profiling is over: the guest is executed, and
    /// a cluster client's refusal is reported as a crash.
    pub open spec fn after_profile(&self, input: Vec<u8>, stage: Stage) -> bool {
        match self.zkvm {
            ZkVMInstance::Dockerized { .. } => stage == (Stage::Execute { input }),
            ZkVMInstance::ZiskClusterClient { .. } => self.reports_execution_crash(
                stage,
                cluster_execute_refusal(),
            ),
        }
    }

    /// Whether `stage` comes when the execution has ended. A failure and a panic
    /// are reported as crashes.
    pub open spec fn after_execution(&self, end: CallEnd<ExecutionOutput>, stage: Stage) -> bool {
        match end {
            CallEnd::Returned(output) => stage == (Stage::CompareExecution { executed: output }),
            CallEnd::Failed(reason) => self.reports_execution_crash(stage, reason@),
            CallEnd::Panicked(payload) => self.reports_execution_crash(
                stage,
                panic_message(payload),
            ),
        }
    }

    /// Whether `stage` comes when proving has ended. A failure and a panic are
    /// reported as crashes.
    pub open spec fn after_proving(&self, end: CallEnd<ProveOutput>, stage: Stage) -> bool {
        match end {
            CallEnd::Returned(output) => stage == (Stage::CompareProof { output }),
            CallEnd::Failed(reason) => self.reports_proving_crash(stage, reason@),
            CallEnd::Panicked(payload) => self.reports_proving_crash(
                stage,
                panic_message(payload),
            ),
        }
    }

    /// Whether `stage` comes once the prover's public values are compared: the
    /// proof is saved where that is asked for.
    pub open spec fn after_proof(&self, output: ProveOutput, matched: bool, stage: Stage) -> bool {
        match self.config.save_proofs_folder {
            Some(folder) => {
                let sub_folder = sub_folder_text(self.config.sub_folder);
                let zkvm_name = zkvm_file_name(self.zkvm);
                stage matches Stage::CreateProofDir { dir, path, output: kept, matched: noted }
                    && dir@ == proof_dir(folder@, sub_folder, zkvm_name) && path@ == proof_path(
                    folder@,
                    sub_folder,
                    zkvm_name,
                    self.fixture_name@,
                ) && kept == output && noted == matched
            },
            None => stage == (Stage::VerifyProof { output, matched }),
        }
    }

    /// Whether `stage` comes when `event` has answered `current`.
    pub open spec fn leads_to(&self, current: Stage, event: Event, stage: Stage) -> bool {
        match (current, event) {
            (Stage::CheckReport { .. }, Event::Exists(exists)) => if exists {
                stage == (Stage::Finished { result: Ok(Outcome::Skipped) })
            } else {
                stage is LoadInput
            },
            (Stage::LoadInput, Event::Input(answer)) => match answer {
                Ok(input) => self.after_input(input, stage),
                Err(error) => stage == failed(RunError::Input(error)),
            },
            (Stage::CreateDumpDir { dir, path, input }, Event::Done(answer)) => match answer {
                Ok(_) => stage == (Stage::CheckDump { path, input }),
                Err(error) => stage == failed(RunError::CreateDir { path: dir, error }),
            },
            (Stage::CheckDump { path, input }, Event::Exists(exists)) => if exists {
                self.after_dump(input, stage)
            } else {
                stage == (Stage::WriteDump { path, input })
            },
            (Stage::WriteDump { path, input }, Event::Done(answer)) => match answer {
                Ok(_) => self.after_dump(input, stage),
                Err(error) => stage == failed(RunError::WriteInput { path, error }),
            },
            (Stage::Profile { input }, Event::Profiled(_)) => self.after_profile(input, stage),
            (Stage::Execute { .. }, Event::Executed(end)) => self.after_execution(end, stage),
            (Stage::CompareExecution { executed: output }, Event::Expected(answer)) => match answer {
                Ok(expected) => self.reports(
                    stage,
                    Some(
                        ExecutionMetrics::Success {
                            output_matched: normalized(self.zkvm.kind(), expected@)
                                == output.public_values@,
                            total_num_cycles: output.total_num_cycles,
                            region_cycles: output.region_cycles,
                            execution_duration: output.execution_duration,
                        },
                    ),
                    None,
                ),
                Err(error) => stage == failed(RunError::CompareExecution(error)),
            },
            (Stage::Prove { .. }, Event::Proved(end)) => self.after_proving(end, stage),
            (Stage::CompareProof { output }, Event::Expected(answer)) => match answer {
                Ok(expected) => self.after_proof(
                    output,
                    normalized(self.zkvm.kind(), expected@) == output.public_values@,
                    stage,
                ),
                Err(error) => stage == failed(RunError::CompareProof(error)),
            },
            (
                Stage::CreateProofDir { dir, path, output, matched },
                Event::Done(answer),
            ) => match answer {
                Ok(_) => stage == (Stage::WriteProof { path, output, matched }),
                Err(error) => stage == failed(RunError::CreateDir { path: dir, error }),
            },
            (Stage::WriteProof { path, output, matched }, Event::Done(answer)) => match answer {
                Ok(_) => stage == (Stage::VerifyProof { output, matched }),
                Err(error) => stage == failed(RunError::WriteProof { path, error }),
            },
            (Stage::VerifyProof { output, matched }, Event::Verified(answer, millis)) => match answer {
                Ok(values) => stage == (Stage::CompareVerification {
                    output,
                    matched,
                    values,
                    millis,
                }),
                Err(error) => stage == failed(RunError::VerifyProof(error)),
            },
            (
                Stage::CompareVerification { output, matched, values, millis },
                Event::Expected(answer),
            ) => match answer {
                Ok(expected) => self.reports(
                    stage,
                    None,
                    Some(
                        ProvingMetrics::Success {
                            output_matched: matched && normalized(self.zkvm.kind(), expected@)
                                == values@,
                            proof_size: output.proof@.len() as usize,
                            proving_time_ms: output.proving_time.millis() as u128,
                            verification_time_ms: millis,
                        },
                    ),
                ),
                Err(error) => stage == failed(RunError::CompareVerification(error)),
            },
            (Stage::WriteReport { .. }, Event::Done(answer)) => match answer {
                Ok(_) => stage == (Stage::Finished { result: Ok(Outcome::Reported) }),
                Err(error) => stage == failed(RunError::WriteReport(error)),
            },
            _ => false,
        }
    }

    /// The stage that comes first.
    fn first_stage(&self) -> (stage: Stage)
        ensures
            self.first(stage),
    {
        if self.config.force_rerun {
            Stage::LoadInput
        } else {
            Stage::CheckReport {
                path: benchmark_output_path(self.zkvm, self.config, self.fixture_name.as_str()),
            }
        }
    }

    /// The stage that writes the report with the given metrics.
    fn report_stage(
        &self,
        execution: Option<ExecutionMetrics>,
        proving: Option<ProvingMetrics>,
    ) -> (stage: Stage)
        ensures
            self.reports(stage, execution, proving),
    {
        Stage::WriteReport {
            path: benchmark_output_path(self.zkvm, self.config, self.fixture_name.as_str()),
            report: BenchmarkRun {
                name: self.fixture_name.clone(),
                metadata: self.metadata.clone(),
                execution,
                proving,
                verification: None,
            },
        }
    }

    /// The stage that reports a crash of the execution.
    fn execution_crash_stage(&self, reason: String) -> (stage: Stage)
        ensures
            self.reports_execution_crash(stage, reason@),
    {
        let crash = CrashInfo { reason };
        let ghost noted = crash;
        let stage = self.report_stage(Some(ExecutionMetrics::Crashed(crash)), None);
        assert(self.reports(stage, Some(ExecutionMetrics::Crashed(noted)), None));
        stage
    }

    /// The stage that reports a crash of proving.
    fn proving_crash_stage(&self, reason: String) -> (stage: Stage)
        ensures
            self.reports_proving_crash(stage, reason@),
    {
        let crash = CrashInfo { reason };
        let ghost noted = crash;
        let stage = self.report_stage(None, Some(ProvingMetrics::Crashed(crash)));
        assert(self.reports(stage, None, Some(ProvingMetrics::Crashed(noted))));
        stage
    }

    /// The stage that comes once the input is there.
    fn stage_after_input(&self, input: Vec<u8>) -> (stage: Stage)
        ensures
            self.after_input(input, stage),
    {
        match &self.config.dump_inputs_folder {
            Some(folder) => {
                let (dir, path) = dump_paths(
                    folder.as_str(),
                    sub_folder_or_empty(self.config),
                    self.fixture_name.as_str(),
                );
                Stage::CreateDumpDir { dir, path, input }
            },
            None => self.stage_after_dump(input),
        }
    }

    /// The stage that comes once the input is dumped.
    fn stage_after_dump(&self, input: Vec<u8>) -> (stage: Stage)
        ensures
            self.after_dump(input, stage),
    {
        match self.config.action {
            Action::Execute => match &self.config.zisk_profile_config {
                Some(_) => match self.zkvm.profiling_elf() {
                    Some(_) => Stage::Profile { input },
                    None => Stage::Finished { result: Err(RunError::ProfilingElfMissing) },
                },
                None => self.stage_after_profile(input),
            },
            Action::Prove => Stage::Prove { input },
            Action::Verify => Stage::Finished { result: Err(RunError::VerifyRequested) },
        }
    }

    /// The stage that comes once profiling is over.
    fn stage_after_profile(&self, input: Vec<u8>) -> (stage: Stage)
        ensures
            self.after_profile(input, stage),
    {
        match self.zkvm.execute() {
            Ok(_) => Stage::Execute { input },
            Err(reason) => self.execution_crash_stage(reason),
        }
    }

    /// The stage that comes once the prover's public values are compared.
    fn stage_after_proof(&self, output: ProveOutput, matched: bool) -> (stage: Stage)
        ensures
            self.after_proof(output, matched, stage),
    {
        match &self.config.save_proofs_folder {
            Some(folder) => {
                let (dir, path) = proof_paths(
                    folder.as_str(),
                    sub_folder_or_empty(self.config),
                    benchmark_zkvm_name(self.zkvm).as_str(),
                    self.fixture_name.as_str(),
                );
                Stage::CreateProofDir { dir, path, output, matched }
            },
            None => Stage::VerifyProof { output, matched },
        }
    }

    /// The stage that comes when the execution has ended.
    fn stage_after_execution(&self, end: CallEnd<ExecutionOutput>) -> (stage: Stage)
        ensures
            self.after_execution(end, stage),
    {
        match end {
            CallEnd::Returned(output) => Stage::CompareExecution { executed: output },
            CallEnd::Failed(reason) => self.execution_crash_stage(reason),
            CallEnd::Panicked(payload) => self.execution_crash_stage(get_panic_msg(payload)),
        }
    }

    /// The stage that comes when proving has ended.
    fn stage_after_proving(&self, end: CallEnd<ProveOutput>) -> (stage: Stage)
        ensures
            self.after_proving(end, stage),
    {
        match end {
            CallEnd::Returned(output) => Stage::CompareProof { output },
            CallEnd::Failed(reason) => self.proving_crash_stage(reason),
            CallEnd::Panicked(payload) => self.proving_crash_stage(get_panic_msg(payload)),
        }
    }

    /// The stage that comes when `event` has answered `current`.
    fn next_stage(&self, current: Stage, event: Event) -> (stage: Stage)
        requires
            current.accepts(event),
        ensures
            self.leads_to(current, event, stage),
    {
        match (current, event) {
            (Stage::CheckReport { .. }, Event::Exists(exists)) => if exists {
                Stage::Finished { result: Ok(Outcome::Skipped) }
            } else {
                Stage::LoadInput
            },
            (Stage::LoadInput, Event::Input(answer)) => match answer {
                Ok(input) => self.stage_after_input(input),
                Err(error) => Stage::Finished { result: Err(RunError::Input(error)) },
            },
            (Stage::CreateDumpDir { dir, path, input }, Event::Done(answer)) => match answer {
                Ok(_) => Stage::CheckDump { path, input },
                Err(error) => Stage::Finished {
                    result: Err(RunError::CreateDir { path: dir, error }),
                },
            },
            (Stage::CheckDump { path, input }, Event::Exists(exists)) => if exists {
                self.stage_after_dump(input)
            } else {
                Stage::WriteDump { path, input }
            },
            (Stage::WriteDump { path, input }, Event::Done(answer)) => match answer {
                Ok(_) => self.stage_after_dump(input),
                Err(error) => Stage::Finished { result: Err(RunError::WriteInput { path, error }) },
            },
            (Stage::Profile { input }, Event::Profiled(_)) => self.stage_after_profile(input),
            (Stage::Execute { .. }, Event::Executed(end)) => self.stage_after_execution(end),
            (Stage::CompareExecution { executed: output }, Event::Expected(answer)) => match answer {
                Ok(expected) => {
                    let matched = output_matched(
                        self.zkvm.zkvm_kind(),
                        expected,
                        output.public_values.as_slice(),
                    );
                    self.report_stage(
                        Some(
                            ExecutionMetrics::Success {
                                output_matched: matched,
                                total_num_cycles: output.total_num_cycles,
                                region_cycles: output.region_cycles,
                                execution_duration: output.execution_duration,
                            },
                        ),
                        None,
                    )
                },
                Err(error) => Stage::Finished { result: Err(RunError::CompareExecution(error)) },
            },
            (Stage::Prove { .. }, Event::Proved(end)) => self.stage_after_proving(end),
            (Stage::CompareProof { output }, Event::Expected(answer)) => match answer {
                Ok(expected) => {
                    let matched = output_matched(
                        self.zkvm.zkvm_kind(),
                        expected,
                        output.public_values.as_slice(),
                    );
                    self.stage_after_proof(output, matched)
                },
                Err(error) => Stage::Finished { result: Err(RunError::CompareProof(error)) },
            },
            (
                Stage::CreateProofDir { dir, path, output, matched },
                Event::Done(answer),
            ) => match answer {
                Ok(_) => Stage::WriteProof { path, output, matched },
                Err(error) => Stage::Finished {
                    result: Err(RunError::CreateDir { path: dir, error }),
                },
            },
            (Stage::WriteProof { path, output, matched }, Event::Done(answer)) => match answer {
                Ok(_) => Stage::VerifyProof { output, matched },
                Err(error) => Stage::Finished { result: Err(RunError::WriteProof { path, error }) },
            },
            (
                Stage::VerifyProof { output, matched },
                Event::Verified(answer, millis),
            ) => match answer {
                Ok(values) => Stage::CompareVerification { output, matched, values, millis },
                Err(error) => Stage::Finished { result: Err(RunError::VerifyProof(error)) },
            },
            (
                Stage::CompareVerification { output, matched, values, millis },
                Event::Expected(answer),
            ) => match answer {
                Ok(expected) => {
                    let verifier_matched = output_matched(
                        self.zkvm.zkvm_kind(),
                        expected,
                        values.as_slice(),
                    );
                    self.report_stage(
                        None,
                        Some(
                            ProvingMetrics::Success {
                                output_matched: matched && verifier_matched,
                                proof_size: output.proof.len(),
                                proving_time_ms: output.proving_time.as_millis(),
                                verification_time_ms: millis,
                            },
                        ),
                    )
                },
                Err(error) => Stage::Finished {
                    result: Err(RunError::CompareVerification(error)),
                },
            },
            (Stage::WriteReport { .. }, Event::Done(answer)) => match answer {
                Ok(_) => Stage::Finished { result: Ok(Outcome::Reported) },
                Err(error) => Stage::Finished { result: Err(RunError::WriteReport(error)) },
            },
            (current, _) => current,
        }
    }
}

/// How far one fixture has come on its way through one zkVM.
pub struct ProcessState<'a> {
    /// The fixture and the zkVM
    pub run: FixtureRun<'a>,
    /// What is to be done next
    pub stage: Stage,
}

impl<'a> ProcessState<'a> {
    /// Whether the fixture is at the beginning of its way.
    pub open spec fn starts(&self) -> bool {
        self.run.first(self.stage)
    }

    /// Whether `next` is this fixture, one answered stage later.
    pub open spec fn steps_to(&self, event: Event, next: ProcessState<'a>) -> bool {
        self.stage.accepts(event) && next.run == self.run && self.run.leads_to(
            self.stage,
            event,
            next.stage,
        )
    }
}

/// One fixture on its way through one zkVM.
pub struct ProcessInput<'a> {
    state: ProcessState<'a>,
}

impl<'a> View for ProcessInput<'a> {
    type V = ProcessState<'a>;

    closed spec fn view(&self) -> ProcessState<'a> {
        self.state
    }
}

/// What the profiler is asked for.
pub struct ProfileRequest<'a> {
    /// ELF of the Zisk guest with feature `cycle-scope` enabled
    pub elf: &'a Vec<u8>,
    /// The input of the guest
    pub input: &'a Vec<u8>,
    /// Folder where profiles are stored
    pub output_folder: &'a str,
    /// The subfolder of the profile, where there is one
    pub sub_folder: Option<&'a str>,
    /// The name of the fixture
    pub fixture_name: &'a str,
}

impl<'a> ProcessInput<'a> {
    #[verifier::type_invariant]
    spec fn can_profile(self) -> bool {
        self.state.stage is Profile ==> self.state.run.zkvm.elf() is Some
            && self.state.run.config.zisk_profile_config is Some
    }

    /// What the profiler is asked for, where profiling is to be done next.
    pub fn profile_request(&self) -> (request: Option<ProfileRequest<'_>>)
        ensures
            match self@.stage {
                Stage::Profile { input } => request matches Some(asked) && self@.run.zkvm.elf()
                    == Some(*asked.elf) && *asked.input == input
                    && self@.run.config.zisk_profile_config is Some && asked.output_folder@
                    == self@.run.config.zisk_profile_config->0.output_folder@ && (
                match (self@.run.config.sub_folder, asked.sub_folder) {
                    (Some(sub_folder), Some(told)) => told@ == sub_folder@,
                    (None, None) => true,
                    _ => false,
                }) && asked.fixture_name@ == self@.run.fixture_name@,
                _ => request is None,
            },
    {
        proof {
            use_type_invariant(self);
        }
        let run = &self.state.run;
        let sub_folder = match &run.config.sub_folder {
            Some(sub_folder) => Some(sub_folder.as_str()),
            None => None,
        };
        match (&self.state.stage, run.zkvm.profiling_elf(), &run.config.zisk_profile_config) {
            (Stage::Profile { input }, Some(elf), Some(profile)) => Some(
                ProfileRequest {
                    elf,
                    input,
                    output_folder: profile.output_folder.as_str(),
                    sub_folder,
                    fixture_name: run.fixture_name.as_str(),
                },
            ),
            _ => None,
        }
    }

    /// What is to be done next.
    pub fn stage(&self) -> (stage: &Stage)
        ensures
            *stage == self@.stage,
    {
        &self.state.stage
    }

    /// How the way ended, once it has.
    pub fn into_result(self) -> (result: Option<Result<Outcome, RunError>>)
        ensures
            result == match self@.stage {
                Stage::Finished { result } => Some(result),
                _ => None,
            },
    {
        match self.state.stage {
            Stage::Finished { result } => Some(result),
            _ => None,
        }
    }

    /// Moves on with the answer to what the current stage asks for.
    pub fn step(self, event: Event) -> (next: ProcessInput<'a>)
        requires
            self@.stage.accepts(event),
        ensures
            self@.steps_to(event, next@),
    {
        let ProcessState { run, stage } = self.state;
        let stage = run.next_stage(stage, event);
        ProcessInput { state: ProcessState { run, stage } }
    }
}

/// Puts a fixture on its way through a zkVM. Its report will carry the name and
/// the metadata that the fixture gives here.
pub fn process_input<'a, F: GuestFixture + ?Sized>(
    zkvm: &'a ZkVMInstance,
    io: &F,
    config: &'a RunConfig,
) -> (process: ProcessInput<'a>)
    ensures
        exists|name: String, metadata: String| #[trigger]
            call_ensures(F::name, (io,), name) && #[trigger] call_ensures(
                F::metadata,
                (io,),
                metadata,
            ) && process@.run == (FixtureRun { zkvm, config, fixture_name: name, metadata }),
        process@.starts(),
{
    let fixture_name = io.name();
    let metadata = io.metadata();
    let ghost (name, told) = (fixture_name, metadata);
    assert(call_ensures(F::name, (io,), name) && call_ensures(F::metadata, (io,), told));
    let run = FixtureRun { zkvm, config, fixture_name, metadata };
    let stage = run.first_stage();
    ProcessInput { state: ProcessState { run, stage } }
}

} // verus!
