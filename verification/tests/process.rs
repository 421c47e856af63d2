use benchmark_runner::duration::Duration;
use benchmark_runner::guest_programs::GuestFixture;
use benchmark_runner::iteration::{run_benchmark_iter, IterError, IterEvent, IterStage};
use benchmark_runner::metrics::{BenchmarkRun, ExecutionMetrics, ProvingMetrics};
use benchmark_runner::process::{
    process_input, CallEnd, Event, ExecutionOutput, Outcome, ProcessInput, ProfileOutcome,
    RunError, Stage,
};
use benchmark_runner::runner::{Action, PanicPayload, ProfileConfig, RunConfig};
use benchmark_runner::zkvm::{zkVMKind, Backend, ProveOutput, ZkVMInstance};

fn backend() -> Backend {
    Backend {
        name: "zkvm".to_string(),
        sdk_version: "v1".to_string(),
        program_vk: Vec::new(),
    }
}

fn dockerized(kind: zkVMKind, profiling_elf: Option<Vec<u8>>) -> ZkVMInstance {
    ZkVMInstance::Dockerized { kind, zkvm: backend(), profiling_elf }
}

fn config(action: Action) -> RunConfig {
    RunConfig {
        output_folder: "out".to_string(),
        sub_folder: Some("sub".to_string()),
        action,
        force_rerun: false,
        dump_inputs_folder: None,
        zisk_profile_config: None,
        save_proofs_folder: None,
    }
}

struct Block;

impl GuestFixture for Block {
    fn name(&self) -> String {
        "block".to_string()
    }

    fn metadata(&self) -> String {
        "{\"block_used_gas\":7}".to_string()
    }

    fn input(&self) -> Result<Vec<u8>, String> {
        Ok(vec![9])
    }

    fn expected_public_values(&self) -> Result<Vec<u8>, String> {
        Ok(vec![1])
    }
}

fn start<'a>(zkvm: &'a ZkVMInstance, config: &'a RunConfig) -> ProcessInput<'a> {
    process_input(zkvm, &Block, config)
}

fn executed(public_values: Vec<u8>) -> Event {
    Event::Executed(CallEnd::Returned(ExecutionOutput {
        public_values,
        total_num_cycles: 77,
        region_cycles: vec![("region".to_string(), 5)],
        execution_duration: Duration { secs: 1, nanos: 2 },
    }))
}

fn proved(public_values: Vec<u8>) -> Event {
    Event::Proved(CallEnd::Returned(ProveOutput {
        public_values,
        proof: vec![1, 2, 3, 4],
        proving_time: Duration { secs: 2, nanos: 3_500_000 },
    }))
}

fn done() -> Event {
    Event::Done(Ok(()))
}

fn broken() -> Event {
    Event::Done(Err("disk full".to_string()))
}

fn input() -> Event {
    Event::Input(Ok(vec![9]))
}

fn expected(values: Vec<u8>) -> Event {
    Event::Expected(Ok(values))
}

fn report_of(process: &ProcessInput) -> (String, String) {
    match process.stage() {
        Stage::WriteReport { path, report } => (path.clone(), report.name.clone()),
        stage => panic!("no report: {:?}", stage),
    }
}

fn report(process: ProcessInput) -> BenchmarkRun {
    match process.stage() {
        Stage::WriteReport { report, .. } => {
            assert_eq!(report.name, "block");
            assert_eq!(report.metadata, "{\"block_used_gas\":7}");
            assert!(report.verification.is_none());
            report.clone()
        }
        stage => panic!("no report: {:?}", stage),
    }
}

fn error(process: ProcessInput) -> RunError {
    match process.into_result() {
        Some(Err(error)) => error,
        other => panic!("no failure: {:?}", other),
    }
}

#[test]
fn an_existing_report_is_skipped() {
    let zkvm = dockerized(zkVMKind::SP1, None);
    let config = config(Action::Execute);
    let process = start(&zkvm, &config);
    assert!(matches!(
        process.stage(),
        Stage::CheckReport { path } if path == "out/sub/zkvm-v1/block.json"
    ));
    let process = process.step(Event::Exists(true));
    assert!(matches!(
        process.stage(),
        Stage::Finished { result: Ok(Outcome::Skipped) }
    ));
}

#[test]
fn a_forced_rerun_does_not_look_for_the_report() {
    let zkvm = dockerized(zkVMKind::SP1, None);
    let mut config = config(Action::Execute);
    config.force_rerun = true;
    assert!(matches!(start(&zkvm, &config).stage(), Stage::LoadInput));
}

#[test]
fn an_execution_is_reported() {
    let zkvm = dockerized(zkVMKind::SP1, None);
    let config = config(Action::Execute);
    let process = start(&zkvm, &config).step(Event::Exists(false));
    assert!(matches!(process.stage(), Stage::LoadInput));
    let process = process.step(input());
    assert!(matches!(process.stage(), Stage::Execute { input } if *input == vec![9]));
    let process = process.step(executed(vec![1, 2]));
    assert!(matches!(process.stage(), Stage::CompareExecution { .. }));
    let process = process.step(expected(vec![1, 2]));
    assert_eq!(
        report_of(&process),
        ("out/sub/zkvm-v1/block.json".to_string(), "block".to_string())
    );
    match process.stage() {
        Stage::WriteReport { report, .. } => match &report.execution {
            Some(ExecutionMetrics::Success {
                output_matched,
                total_num_cycles,
                region_cycles,
                execution_duration,
            }) => {
                assert!(*output_matched);
                assert_eq!(*total_num_cycles, 77);
                assert_eq!(*region_cycles, vec![("region".to_string(), 5)]);
                assert_eq!(*execution_duration, Duration { secs: 1, nanos: 2 });
                assert!(report.proving.is_none());
            }
            other => panic!("no success: {:?}", other),
        },
        stage => panic!("no report: {:?}", stage),
    }
    let process = process.step(done());
    assert!(matches!(
        process.stage(),
        Stage::Finished { result: Ok(Outcome::Reported) }
    ));
}

#[test]
fn a_mismatch_is_reported_and_no_failure() {
    let zkvm = dockerized(zkVMKind::SP1, None);
    let mut config = config(Action::Execute);
    config.force_rerun = true;
    let process = start(&zkvm, &config)
        .step(input())
        .step(executed(vec![1, 2]))
        .step(expected(vec![1, 3]));
    assert!(matches!(
        report(process).execution,
        Some(ExecutionMetrics::Success { output_matched: false, .. })
    ));
}

#[test]
fn expected_values_are_padded_for_the_zkvm() {
    let zkvm = dockerized(zkVMKind::OpenVM, None);
    let mut config = config(Action::Execute);
    config.force_rerun = true;
    let mut values = vec![1];
    values.resize(32, 0);
    let process = start(&zkvm, &config)
        .step(input())
        .step(executed(values))
        .step(expected(vec![1]));
    assert!(matches!(
        report(process).execution,
        Some(ExecutionMetrics::Success { output_matched: true, .. })
    ));
}

#[test]
fn failures_and_panics_of_an_execution_are_crashes() {
    let zkvm = dockerized(zkVMKind::SP1, None);
    let mut config = config(Action::Execute);
    config.force_rerun = true;
    for (end, reason) in [
        (CallEnd::Failed("out of memory".to_string()), "out of memory"),
        (
            CallEnd::Panicked(PanicPayload::Slice("slice".to_string())),
            "slice",
        ),
        (
            CallEnd::Panicked(PanicPayload::Owned("owned".to_string())),
            "owned",
        ),
        (CallEnd::Panicked(PanicPayload::Other), "Unknown panic occurred"),
    ] {
        let process = start(&zkvm, &config).step(input()).step(Event::Executed(end));
        let report = report(process);
        assert!(report.proving.is_none());
        match report.execution {
            Some(ExecutionMetrics::Crashed(crash)) => assert_eq!(crash.reason, reason),
            other => panic!("no crash: {:?}", other),
        }
    }
}

#[test]
fn an_execution_on_a_cluster_is_a_crash() {
    let zkvm = ZkVMInstance::ZiskClusterClient {
        client: backend(),
        prove_timeout: Some(Duration { secs: 1, nanos: 0 }),
        profiling_elf: None,
    };
    let mut config = config(Action::Execute);
    config.force_rerun = true;
    match report(start(&zkvm, &config).step(input())).execution {
        Some(ExecutionMetrics::Crashed(crash)) => assert_eq!(
            crash.reason,
            "ZiskClusterClient does not support Action::Execute"
        ),
        other => panic!("no crash: {:?}", other),
    }
}

#[test]
fn inputs_are_dumped_before_the_action() {
    let zkvm = dockerized(zkVMKind::SP1, None);
    let mut config = config(Action::Execute);
    config.dump_inputs_folder = Some("dump".to_string());
    let process = start(&zkvm, &config).step(Event::Exists(false)).step(input());
    assert!(matches!(process.stage(), Stage::CreateDumpDir { dir, .. } if dir == "dump/sub"));
    let process = process.step(done());
    assert!(matches!(
        process.stage(),
        Stage::CheckDump { path, .. } if path == "dump/sub/block.bin"
    ));
    let process = process.step(Event::Exists(false));
    assert!(matches!(
        process.stage(),
        Stage::WriteDump { path, input } if path == "dump/sub/block.bin" && *input == vec![9]
    ));
    assert!(matches!(process.step(done()).stage(), Stage::Execute { .. }));
}

#[test]
fn an_existing_dump_is_kept() {
    let zkvm = dockerized(zkVMKind::SP1, None);
    let mut config = config(Action::Prove);
    config.dump_inputs_folder = Some("dump".to_string());
    config.force_rerun = true;
    let process = start(&zkvm, &config)
        .step(input())
        .step(done())
        .step(Event::Exists(true));
    assert!(matches!(process.stage(), Stage::Prove { .. }));
}

#[test]
fn failed_dumps_end_the_run() {
    let zkvm = dockerized(zkVMKind::SP1, None);
    let mut config = config(Action::Execute);
    config.dump_inputs_folder = Some("dump".to_string());
    config.force_rerun = true;
    let failure = error(start(&zkvm, &config).step(input()).step(broken()));
    assert!(matches!(&failure, RunError::CreateDir { error, .. } if error == "disk full"));
    assert_eq!(failure.message(), "Failed to create directory: dump/sub");
    let failure = error(
        start(&zkvm, &config)
            .step(input())
            .step(done())
            .step(Event::Exists(false))
            .step(broken()),
    );
    assert!(matches!(&failure, RunError::WriteInput { .. }));
    assert_eq!(failure.message(), "Failed to write input to dump/sub/block.bin");
}

#[test]
fn profiling_comes_before_the_execution_and_never_decides() {
    let zkvm = dockerized(zkVMKind::Zisk, Some(vec![1]));
    let mut config = config(Action::Execute);
    config.force_rerun = true;
    config.zisk_profile_config = Some(ProfileConfig { output_folder: "profiles".to_string() });
    for outcome in [
        ProfileOutcome::Completed,
        ProfileOutcome::Failed("no profiler".to_string()),
    ] {
        let process = start(&zkvm, &config);
        assert!(process.profile_request().is_none());
        let process = process.step(input());
        assert!(matches!(process.stage(), Stage::Profile { .. }));
        let request = process.profile_request().unwrap();
        assert_eq!(*request.elf, vec![1]);
        assert_eq!(*request.input, vec![9]);
        assert_eq!(request.output_folder, "profiles");
        assert_eq!(request.sub_folder, Some("sub"));
        assert_eq!(request.fixture_name, "block");
        let process = process.step(Event::Profiled(outcome));
        assert!(matches!(process.stage(), Stage::Execute { input } if *input == vec![9]));
    }
}

#[test]
fn profiling_does_not_alter_the_report() {
    let zkvm = dockerized(zkVMKind::Zisk, Some(vec![1]));
    let mut without = config(Action::Execute);
    without.force_rerun = true;
    let mut with = config(Action::Execute);
    with.force_rerun = true;
    with.zisk_profile_config = Some(ProfileConfig { output_folder: "profiles".to_string() });
    let profiled = start(&zkvm, &with)
        .step(input())
        .step(Event::Profiled(ProfileOutcome::Failed("no profiler".to_string())))
        .step(executed(vec![1]))
        .step(expected(vec![2]));
    let plain = start(&zkvm, &without)
        .step(input())
        .step(executed(vec![1]))
        .step(expected(vec![2]));
    assert_eq!(format!("{:?}", profiled.stage()), format!("{:?}", plain.stage()));
}

#[test]
fn a_second_run_looks_for_the_report_of_the_first() {
    let zkvm = dockerized(zkVMKind::SP1, None);
    let config = config(Action::Execute);
    let first = start(&zkvm, &config)
        .step(Event::Exists(false))
        .step(input())
        .step(Event::Executed(CallEnd::Failed("crash".to_string())));
    let (written, _) = report_of(&first);
    let second = start(&zkvm, &config);
    assert!(matches!(second.stage(), Stage::CheckReport { path } if *path == written));
    assert_eq!(
        second.step(Event::Exists(true)).into_result().unwrap().unwrap(),
        Outcome::Skipped
    );
}

#[test]
fn profiling_without_its_elf_fails() {
    let zkvm = dockerized(zkVMKind::Zisk, None);
    let mut config = config(Action::Execute);
    config.force_rerun = true;
    config.zisk_profile_config = Some(ProfileConfig { output_folder: "profiles".to_string() });
    let failure = error(start(&zkvm, &config).step(input()));
    assert!(matches!(failure, RunError::ProfilingElfMissing));
    assert_eq!(
        failure.message(),
        "Zisk profiling configured but profiling ELF not found"
    );
}

#[test]
fn a_proof_is_saved_verified_and_reported() {
    let zkvm = dockerized(zkVMKind::SP1, None);
    let mut config = config(Action::Prove);
    config.save_proofs_folder = Some("proofs".to_string());
    let process = start(&zkvm, &config)
        .step(Event::Exists(false))
        .step(input())
        .step(proved(vec![1]))
        .step(expected(vec![1]));
    assert!(matches!(
        process.stage(),
        Stage::CreateProofDir { dir, .. } if dir == "proofs/sub/zkvm-v1"
    ));
    let process = process.step(done());
    assert!(matches!(
        process.stage(),
        Stage::WriteProof { path, output, .. }
            if path == "proofs/sub/zkvm-v1/block.proof" && output.proof == vec![1, 2, 3, 4]
    ));
    let process = process.step(done());
    assert!(matches!(process.stage(), Stage::VerifyProof { .. }));
    let process = process
        .step(Event::Verified(Ok(vec![1]), 12))
        .step(expected(vec![1]));
    let report = report(process);
    assert!(report.execution.is_none());
    match report.proving {
        Some(ProvingMetrics::Success {
            output_matched,
            proof_size,
            proving_time_ms,
            verification_time_ms,
        }) => {
            assert!(output_matched);
            assert_eq!(proof_size, 4);
            assert_eq!(proving_time_ms, 2003);
            assert_eq!(verification_time_ms, 12);
        }
        other => panic!("no success: {:?}", other),
    }
}

#[test]
fn the_longest_course_has_twelve_stages() {
    let zkvm = dockerized(zkVMKind::SP1, None);
    let mut config = config(Action::Prove);
    config.dump_inputs_folder = Some("dump".to_string());
    config.save_proofs_folder = Some("proofs".to_string());
    let mut process = start(&zkvm, &config);
    let events = vec![
        Event::Exists(false),
        input(),
        done(),
        Event::Exists(false),
        done(),
        proved(vec![1]),
        expected(vec![1]),
        done(),
        done(),
        Event::Verified(Ok(vec![1]), 0),
        expected(vec![1]),
        done(),
    ];
    assert_eq!(events.len(), 12);
    for event in events {
        assert!(!matches!(process.stage(), Stage::Finished { .. }));
        process = process.step(event);
    }
    assert!(matches!(
        process.stage(),
        Stage::Finished { result: Ok(Outcome::Reported) }
    ));
}

#[test]
fn zkvms_share_the_dump_of_a_fixture() {
    let mut config = config(Action::Execute);
    config.dump_inputs_folder = Some("dump".to_string());
    config.force_rerun = true;
    for kind in [zkVMKind::SP1, zkVMKind::Zisk] {
        let zkvm = dockerized(kind, None);
        let process = start(&zkvm, &config).step(input());
        assert!(matches!(
            process.stage(),
            Stage::CreateDumpDir { path, .. } if path == "dump/sub/block.bin"
        ));
    }
}

#[test]
fn a_proof_matches_only_where_prover_and_verifier_match() {
    let zkvm = dockerized(zkVMKind::SP1, None);
    let mut config = config(Action::Prove);
    config.force_rerun = true;
    for (of_prover, of_verifier, matched) in [(1, 1, true), (1, 2, false), (2, 1, false)] {
        let process = start(&zkvm, &config)
            .step(input())
            .step(proved(vec![of_prover]))
            .step(expected(vec![1]))
            .step(Event::Verified(Ok(vec![of_verifier]), 0))
            .step(expected(vec![1]));
        match report(process).proving {
            Some(ProvingMetrics::Success { output_matched, .. }) => {
                assert_eq!(output_matched, matched)
            }
            other => panic!("no success: {:?}", other),
        }
    }
}

#[test]
fn failures_and_panics_of_proving_are_crashes() {
    let zkvm = dockerized(zkVMKind::SP1, None);
    let mut config = config(Action::Prove);
    config.force_rerun = true;
    for (end, reason) in [
        (CallEnd::Failed("timeout".to_string()), "timeout"),
        (
            CallEnd::Panicked(PanicPayload::Slice("slice".to_string())),
            "slice",
        ),
    ] {
        let report = report(start(&zkvm, &config).step(input()).step(Event::Proved(end)));
        assert!(report.execution.is_none());
        match report.proving {
            Some(ProvingMetrics::Crashed(crash)) => assert_eq!(crash.reason, reason),
            other => panic!("no crash: {:?}", other),
        }
    }
}

#[test]
fn a_proof_that_cannot_be_verified_fails_the_run() {
    let zkvm = dockerized(zkVMKind::SP1, None);
    let mut config = config(Action::Prove);
    config.force_rerun = true;
    let failure = error(
        start(&zkvm, &config)
            .step(input())
            .step(proved(vec![1]))
            .step(expected(vec![1]))
            .step(Event::Verified(Err("bad proof".to_string()), 3)),
    );
    assert!(matches!(&failure, RunError::VerifyProof(error) if error == "bad proof"));
    assert_eq!(failure.message(), "Failed to verify proof");
}

#[test]
fn proofs_that_cannot_be_saved_fail_the_run() {
    let zkvm = dockerized(zkVMKind::SP1, None);
    let mut config = config(Action::Prove);
    config.force_rerun = true;
    config.save_proofs_folder = Some("proofs".to_string());
    let compared = || {
        start(&zkvm, &config)
            .step(input())
            .step(proved(vec![1]))
            .step(expected(vec![1]))
    };
    let failure = error(compared().step(broken()));
    assert_eq!(failure.message(), "Failed to create directory: proofs/sub/zkvm-v1");
    let failure = error(compared().step(done()).step(broken()));
    assert!(matches!(&failure, RunError::WriteProof { .. }));
    assert_eq!(
        failure.message(),
        "Failed to write proof to proofs/sub/zkvm-v1/block.proof"
    );
}

#[test]
fn a_fixture_that_expects_nothing_fails_every_comparison() {
    let zkvm = dockerized(zkVMKind::SP1, None);
    let speechless = || Event::Expected(Err("no expectation".to_string()));
    let mut config_of_execution = config(Action::Execute);
    config_of_execution.force_rerun = true;
    let failure = error(
        start(&zkvm, &config_of_execution)
            .step(input())
            .step(executed(vec![1]))
            .step(speechless()),
    );
    assert!(matches!(&failure, RunError::CompareExecution(_)));
    assert_eq!(failure.message(), "Failed to compare public output from execution");

    let mut config_of_proof = config(Action::Prove);
    config_of_proof.force_rerun = true;
    let proof = || start(&zkvm, &config_of_proof).step(input()).step(proved(vec![1]));
    let failure = error(proof().step(speechless()));
    assert!(matches!(&failure, RunError::CompareProof(_)));
    assert_eq!(failure.message(), "Failed to compare public output from proof");
    let failure = error(
        proof()
            .step(expected(vec![1]))
            .step(Event::Verified(Ok(vec![1]), 0))
            .step(speechless()),
    );
    assert!(matches!(&failure, RunError::CompareVerification(_)));
    assert_eq!(
        failure.message(),
        "Failed to compare public output from proof verification"
    );
}

#[test]
fn fixtures_without_input_and_unwritten_reports_fail_the_run() {
    let zkvm = dockerized(zkVMKind::SP1, None);
    let mut config = config(Action::Execute);
    config.force_rerun = true;
    let failure = error(start(&zkvm, &config).step(Event::Input(Err("no input".to_string()))));
    assert!(matches!(&failure, RunError::Input(_)));
    assert_eq!(failure.message(), "no input");
    let failure = error(
        start(&zkvm, &config)
            .step(input())
            .step(executed(vec![1]))
            .step(expected(vec![1]))
            .step(broken()),
    );
    assert!(matches!(&failure, RunError::WriteReport(_)));
    assert_eq!(failure.message(), "disk full");
}

#[test]
fn fixtures_are_not_run_to_verify() {
    let zkvm = dockerized(zkVMKind::SP1, None);
    let mut config = config(Action::Verify);
    config.force_rerun = true;
    let failure = error(start(&zkvm, &config).step(input()));
    assert!(matches!(failure, RunError::VerifyRequested));
    assert_eq!(
        failure.message(),
        "process_input should not be called with Action::Verify, use run_verify_from_disk"
    );
}

#[test]
fn executions_run_side_by_side() {
    let iteration = run_benchmark_iter(&config(Action::Execute));
    assert!(matches!(
        iteration.stage(),
        IterStage::WriteHardware { path } if path == "out/hardware.json"
    ));
    let iteration = iteration.step(IterEvent::Done(Ok(())));
    assert!(matches!(iteration.stage(), IterStage::RunParallel));
    let iteration = iteration.step(IterEvent::Drained(Ok(())));
    assert!(matches!(iteration.stage(), IterStage::Finished { result: Ok(()) }));
}

#[test]
fn proofs_run_one_after_the_other() {
    let iteration = run_benchmark_iter(&config(Action::Prove)).step(IterEvent::Done(Ok(())));
    assert!(matches!(iteration.stage(), IterStage::NextInput));
    let iteration = iteration.step(IterEvent::Input(Some(Ok(()))));
    assert!(matches!(iteration.stage(), IterStage::Process));
    let iteration = iteration.step(IterEvent::Processed(Ok(())));
    assert!(matches!(iteration.stage(), IterStage::NextInput));
    let iteration = iteration.step(IterEvent::Input(None));
    assert!(matches!(iteration.stage(), IterStage::Finished { result: Ok(()) }));
}

fn iteration_error(result: Option<Result<(), IterError>>) -> IterError {
    match result {
        Some(Err(error)) => error,
        other => panic!("no failure: {:?}", other),
    }
}

#[test]
fn the_first_failure_ends_a_benchmark() {
    let failure = iteration_error(
        run_benchmark_iter(&config(Action::Prove))
            .step(IterEvent::Done(Err("read-only".to_string())))
            .into_result(),
    );
    assert!(matches!(&failure, IterError::Hardware(_)));
    assert_eq!(failure.message(), "read-only");

    let proving = || run_benchmark_iter(&config(Action::Prove)).step(IterEvent::Done(Ok(())));
    let failure = iteration_error(
        proving()
            .step(IterEvent::Input(Some(Err("no fixture".to_string()))))
            .into_result(),
    );
    assert!(matches!(&failure, IterError::Input(_)));
    assert_eq!(failure.message(), "no fixture");

    let failure = iteration_error(
        proving()
            .step(IterEvent::Input(Some(Ok(()))))
            .step(IterEvent::Processed(Err(RunError::ProfilingElfMissing)))
            .into_result(),
    );
    assert!(matches!(&failure, IterError::Run(_)));
    assert_eq!(
        failure.message(),
        "Zisk profiling configured but profiling ELF not found"
    );

    let failure = iteration_error(
        run_benchmark_iter(&config(Action::Execute))
            .step(IterEvent::Done(Ok(())))
            .step(IterEvent::Drained(Err(IterError::Input("gone".to_string()))))
            .into_result(),
    );
    assert_eq!(failure.message(), "gone");
}

#[test]
fn a_benchmark_is_not_run_to_verify() {
    let failure = iteration_error(
        run_benchmark_iter(&config(Action::Verify))
            .step(IterEvent::Done(Ok(())))
            .into_result(),
    );
    assert!(matches!(failure, IterError::VerifyRequested));
    assert_eq!(
        failure.message(),
        "run_benchmark_iter should not be called with Action::Verify, use run_verify_from_disk"
    );
}
