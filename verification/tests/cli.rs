use benchmark_runner::cli::{
    build_zkvm_config, BenchmarkAction, Cli, Conflict, ExecutionClient, GuestProgramCommand,
    Resource,
};
use benchmark_runner::duration::{parse_duration, parse_short_duration, stays_short, Duration};
use benchmark_runner::plan::{
    el_guest_name_prefix, instance_task, FixtureSource, InstanceTask, ProofsSource,
};
use benchmark_runner::runner::Action;
use benchmark_runner::stateless_validator;
use benchmark_runner::zkvm::{zkVMKind, ProverResource, ZkVM};

fn zkvm(kind: zkVMKind, id: &str) -> ZkVM {
    ZkVM { kind, id: id.to_string() }
}

fn cli(action: BenchmarkAction, zkvms: Vec<ZkVM>) -> Cli {
    Cli {
        resource: Resource::Cpu,
        cluster_endpoint: None,
        action,
        zkvms,
        force_rerun: false,
        guest_program: GuestProgramCommand::EmptyProgram,
        output_folder: "zkevm-metrics".to_string(),
        dump_inputs: None,
        save_proofs: None,
        proofs_folder: "zkevm-fixtures-proofs".to_string(),
        proofs_url: None,
        bin_path: None,
        timeout: None,
        zisk_profile: false,
        zisk_profile_output: "zisk-profiles".to_string(),
    }
}

fn zisk() -> Vec<ZkVM> {
    vec![zkvm(zkVMKind::Zisk, "zisk")]
}

fn zisk_and_sp1() -> Vec<ZkVM> {
    vec![zkvm(zkVMKind::Zisk, "zisk"), zkvm(zkVMKind::SP1, "sp1")]
}

fn message_of(options: &Cli) -> String {
    match options.validate() {
        Ok(()) => panic!("no conflict"),
        Err(conflict) => options.conflict_message(conflict),
    }
}

#[test]
fn plain_options_do_not_conflict() {
    assert_eq!(cli(BenchmarkAction::Execute, zisk_and_sp1()).validate(), Ok(()));
    assert_eq!(cli(BenchmarkAction::Prove, Vec::new()).validate(), Ok(()));
    assert_eq!(cli(BenchmarkAction::Verify, zisk()).validate(), Ok(()));
}

#[test]
fn profiling_needs_an_execution() {
    let mut options = cli(BenchmarkAction::Prove, zisk());
    options.zisk_profile = true;
    assert_eq!(options.validate(), Err(Conflict::ProfileNeedsExecute));
    assert_eq!(
        message_of(&options),
        "--zisk-profile requires --action execute, but got Prove"
    );
    options.action = BenchmarkAction::Verify;
    assert_eq!(
        message_of(&options),
        "--zisk-profile requires --action execute, but got Verify"
    );
}

#[test]
fn profiling_needs_zisk_alone() {
    let mut options = cli(BenchmarkAction::Execute, zisk_and_sp1());
    options.zisk_profile = true;
    assert_eq!(options.validate(), Err(Conflict::ProfileNeedsZisk));
    assert_eq!(
        message_of(&options),
        "--zisk-profile requires --zkvms zisk only, but got: zisk, sp1"
    );
    options.zkvms = vec![zkvm(zkVMKind::OpenVM, "openvm")];
    assert_eq!(
        message_of(&options),
        "--zisk-profile requires --zkvms zisk only, but got: openvm"
    );
    options.zkvms = Vec::new();
    assert_eq!(
        message_of(&options),
        "--zisk-profile requires --zkvms zisk only, but got: "
    );
    options.zkvms = zisk();
    assert_eq!(options.validate(), Ok(()));
}

#[test]
fn saving_proofs_needs_proving() {
    for action in [BenchmarkAction::Execute, BenchmarkAction::Verify] {
        let mut options = cli(action, zisk());
        options.save_proofs = Some("proofs".to_string());
        assert_eq!(options.validate(), Err(Conflict::SaveProofsNeedsProve));
        assert_eq!(
            message_of(&options),
            "--save-proofs is only valid with --action prove"
        );
    }
    let mut options = cli(BenchmarkAction::Prove, zisk());
    options.save_proofs = Some("proofs".to_string());
    assert_eq!(options.validate(), Ok(()));
}

#[test]
fn downloading_proofs_needs_verifying() {
    let mut options = cli(BenchmarkAction::Prove, zisk());
    options.proofs_url = Some("https://example.org/proofs.tar.gz".to_string());
    assert_eq!(options.validate(), Err(Conflict::ProofsUrlNeedsVerify));
    assert_eq!(
        message_of(&options),
        "--proofs-url is only valid with --action verify"
    );
    options.action = BenchmarkAction::Verify;
    assert_eq!(options.validate(), Ok(()));
}

#[test]
fn an_endpoint_needs_the_cluster() {
    let mut options = cli(BenchmarkAction::Prove, zisk());
    options.cluster_endpoint = Some("http://localhost:1".to_string());
    assert_eq!(options.validate(), Err(Conflict::EndpointNeedsCluster));
    assert_eq!(
        message_of(&options),
        "--cluster-endpoint is only valid with --resource cluster"
    );
    options.resource = Resource::Cluster;
    assert_eq!(options.validate(), Ok(()));
}

#[test]
fn a_cluster_runs_zisk_and_does_not_execute() {
    let mut options = cli(BenchmarkAction::Prove, zisk_and_sp1());
    options.resource = Resource::Cluster;
    options.cluster_endpoint = Some("http://localhost:1".to_string());
    assert_eq!(options.validate(), Err(Conflict::ClusterNeedsZisk));
    assert_eq!(
        message_of(&options),
        "--resource cluster is only implemented for --zkvms zisk"
    );
    options.zkvms = zisk();
    options.action = BenchmarkAction::Execute;
    assert_eq!(options.validate(), Err(Conflict::ClusterCannotExecute));
    assert_eq!(
        message_of(&options),
        "--resource cluster is not implemented for --action execute"
    );
}

#[test]
fn the_first_conflict_is_told() {
    let mut options = cli(BenchmarkAction::Execute, zisk_and_sp1());
    options.zisk_profile = true;
    options.save_proofs = Some("proofs".to_string());
    options.proofs_url = Some("url".to_string());
    options.cluster_endpoint = Some("endpoint".to_string());
    assert_eq!(options.validate(), Err(Conflict::ProfileNeedsZisk));
    options.zisk_profile = false;
    assert_eq!(options.validate(), Err(Conflict::SaveProofsNeedsProve));
    options.save_proofs = None;
    assert_eq!(options.validate(), Err(Conflict::ProofsUrlNeedsVerify));
    options.proofs_url = None;
    assert_eq!(options.validate(), Err(Conflict::EndpointNeedsCluster));
}

#[test]
fn resources_follow_the_options() {
    let mut options = cli(BenchmarkAction::Prove, zisk());
    assert!(matches!(options.prover_resource(), ProverResource::Cpu));
    options.resource = Resource::Gpu;
    assert!(matches!(options.prover_resource(), ProverResource::Gpu));
    options.resource = Resource::Cluster;
    options.cluster_endpoint = Some("http://localhost:50051".to_string());
    match options.prover_resource() {
        ProverResource::Cluster(remote) => {
            assert_eq!(remote.endpoint, "http://localhost:50051");
            assert_eq!(remote.api_key, None);
        }
        _ => panic!("not a cluster"),
    }
}

#[test]
fn default_timeouts_do_not_depend_on_the_action() {
    for action in [Action::Execute, Action::Prove, Action::Verify] {
        let config = build_zkvm_config(action, None);
        assert_eq!(config.execute_timeout, Some(Duration { secs: 300, nanos: 0 }));
        assert_eq!(config.prove_timeout, Some(Duration { secs: 900, nanos: 0 }));
        assert_eq!(config.verify_timeout, Some(Duration { secs: 2, nanos: 0 }));
    }
}

#[test]
fn a_timeout_is_for_the_action_only() {
    let given = Some(Duration { secs: 7, nanos: 5 });
    let defaults = build_zkvm_config(Action::Execute, None);

    let execute = build_zkvm_config(Action::Execute, given);
    assert_eq!(execute.execute_timeout, given);
    assert_eq!(execute.prove_timeout, defaults.prove_timeout);
    assert_eq!(execute.verify_timeout, defaults.verify_timeout);

    let prove = build_zkvm_config(Action::Prove, given);
    assert_eq!(prove.execute_timeout, defaults.execute_timeout);
    assert_eq!(prove.prove_timeout, given);
    assert_eq!(prove.verify_timeout, defaults.verify_timeout);

    let verify = build_zkvm_config(Action::Verify, given);
    assert_eq!(verify.execute_timeout, defaults.execute_timeout);
    assert_eq!(verify.prove_timeout, defaults.prove_timeout);
    assert_eq!(verify.verify_timeout, given);
}

#[test]
fn durations_are_read_as_people_write_them() {
    assert_eq!(parse_duration("15m"), Ok(Duration { secs: 900, nanos: 0 }));
    assert_eq!(parse_duration("5m"), Ok(Duration { secs: 300, nanos: 0 }));
    assert_eq!(parse_duration("2s"), Ok(Duration { secs: 2, nanos: 0 }));
    assert_eq!(
        parse_duration("1h 250ms"),
        Ok(Duration { secs: 3600, nanos: 250_000_000 })
    );
}

#[test]
fn malformed_durations_are_refused() {
    assert_eq!(parse_duration(""), Err("value was empty".to_string()));
    assert_eq!(
        parse_duration("15"),
        Err("time unit needed, for example 15sec or 15ms".to_string())
    );
    assert_eq!(parse_duration("m"), Err("expected number at 0".to_string()));
    assert_eq!(
        parse_duration("2s!"),
        Err("invalid character at 2".to_string())
    );
}

#[test]
fn spans_are_left_unread_only_where_they_do_not_fit() {
    for (text, secs) in [
        ("15m", 900),
        ("900000000000ns", 900),
        ("600000000000s", 600_000_000_000),
        ("8000000000000ms", 8_000_000_000),
        ("18446744073709551615s", u64::MAX),
        ("18446744073709551s 614y", 18_446_744_073_709_551 + 614 * 31_557_600),
    ] {
        assert_eq!(
            parse_short_duration(text),
            Some(Ok(Duration { secs, nanos: 0 })),
            "{}",
            text
        );
    }
    assert_eq!(
        parse_short_duration("x"),
        Some(Err("expected number at 0".to_string()))
    );
    for text in ["18446744073709551616s", "99999999999999999999999999y", "584542046091y"] {
        assert!(matches!(parse_short_duration(text), Some(Err(_))), "{}", text);
    }
    assert_eq!(parse_short_duration("18446744073709551615s 1000ms"), None);
    assert_eq!(parse_short_duration("18446744073709551615s 1s"), None);
}

#[test]
fn every_unit_is_weighed() {
    for (unit, nanos) in [
        ("nanos", 1u128),
        ("nsec", 1),
        ("ns", 1),
        ("usec", 1_000),
        ("us", 1_000),
        ("\u{b5}s", 1_000),
        ("millis", 1_000_000),
        ("msec", 1_000_000),
        ("ms", 1_000_000),
        ("seconds", 1_000_000_000),
        ("second", 1_000_000_000),
        ("secs", 1_000_000_000),
        ("sec", 1_000_000_000),
        ("s", 1_000_000_000),
        ("minutes", 60_000_000_000),
        ("minute", 60_000_000_000),
        ("min", 60_000_000_000),
        ("mins", 60_000_000_000),
        ("m", 60_000_000_000),
        ("hours", 3_600_000_000_000),
        ("hour", 3_600_000_000_000),
        ("hr", 3_600_000_000_000),
        ("hrs", 3_600_000_000_000),
        ("h", 3_600_000_000_000),
        ("days", 86_400_000_000_000),
        ("day", 86_400_000_000_000),
        ("d", 86_400_000_000_000),
        ("weeks", 604_800_000_000_000),
        ("week", 604_800_000_000_000),
        ("wk", 604_800_000_000_000),
        ("wks", 604_800_000_000_000),
        ("w", 604_800_000_000_000),
        ("months", 2_630_016_000_000_000),
        ("month", 2_630_016_000_000_000),
        ("M", 2_630_016_000_000_000),
        ("years", 31_557_600_000_000_000),
        ("year", 31_557_600_000_000_000),
        ("yr", 31_557_600_000_000_000),
        ("yrs", 31_557_600_000_000_000),
        ("y", 31_557_600_000_000_000),
    ] {
        let parsed = parse_short_duration(&format!("1000{}", unit)).unwrap().unwrap();
        let read = parsed.secs as u128 * 1_000_000_000 + parsed.nanos as u128;
        assert_eq!(read, 1000 * nanos, "{}", unit);
        // One unit on top of this adds up to the shortest span that does not fit.
        let room = (u64::MAX as u128 + 1) * 1_000_000_000 - nanos;
        let (secs, rest) = (room / 1_000_000_000, room % 1_000_000_000);
        let full = format!("{}s {}ns 1{}", secs, rest, unit);
        assert!(!stays_short(&full), "{}", full);
        if rest > 0 {
            assert!(stays_short(&format!("{}s {}ns 1{}", secs, rest - 1, unit)), "{}", unit);
        } else {
            assert!(stays_short(&format!("{}s 1{}", secs - 1, unit)), "{}", unit);
        }
    }
}

#[test]
fn numbers_are_read_across_blanks_and_fractions_count_as_one() {
    assert!(stays_short(""));
    assert!(stays_short("1 844 674 407 370 955 1614.5s"));
    assert!(!stays_short("1 844 674 407 370 955 1615.5s"));
    assert!(!stays_short("18446744073709551614.999s1s"));
    assert!(stays_short("18446744073709551613.999s1s"));
}

#[test]
fn spans_are_rounded_down_to_milliseconds() {
    assert_eq!(Duration::from_secs(3).as_millis(), 3000);
    assert_eq!(Duration { secs: 1, nanos: 1_999_999 }.as_millis(), 1001);
    assert_eq!(
        Duration { secs: u64::MAX, nanos: 999_999_999 }.as_millis(),
        18_446_744_073_709_551_615_999
    );
}

#[test]
fn actions_and_clients_correspond() {
    assert_eq!(Action::from(BenchmarkAction::Execute), Action::Execute);
    assert_eq!(Action::from(BenchmarkAction::Prove), Action::Prove);
    assert_eq!(Action::from(BenchmarkAction::Verify), Action::Verify);
    assert_eq!(
        stateless_validator::ExecutionClient::from(ExecutionClient::Reth),
        stateless_validator::ExecutionClient::Reth
    );
    assert_eq!(
        stateless_validator::ExecutionClient::from(ExecutionClient::Ethrex),
        stateless_validator::ExecutionClient::Ethrex
    );
}

#[test]
fn clients_have_names_and_guest_paths() {
    assert_eq!(ExecutionClient::Reth.guest_rel_path(), "stateless-validator/reth");
    assert_eq!(ExecutionClient::Ethrex.guest_rel_path(), "stateless-validator/ethrex");
    assert_eq!(stateless_validator::ExecutionClient::Reth.lower_name(), "reth");
    assert_eq!(stateless_validator::ExecutionClient::Ethrex.lower_name(), "ethrex");
    assert_eq!(el_guest_name_prefix("reth"), "stateless-validator-reth");
}

#[test]
fn the_stateless_validator_is_planned() {
    let mut options = cli(BenchmarkAction::Execute, zisk());
    options.guest_program = GuestProgramCommand::StatelessValidator {
        input_folder: "in".to_string(),
        fixture: Some(vec!["block-1".to_string()]),
        execution_client: ExecutionClient::Ethrex,
    };
    options.zisk_profile = true;
    options.dump_inputs = Some("dump".to_string());
    options.bin_path = Some("bin".to_string());
    options.timeout = Some(Duration { secs: 60, nanos: 0 });
    let plan = options.plan("v7.0.0").expect("no conflict");
    assert!(matches!(plan.resource, ProverResource::Cpu));
    assert_eq!(plan.zkvms.len(), 1);
    assert_eq!(plan.zkvm_config.execute_timeout, Some(Duration { secs: 60, nanos: 0 }));
    assert_eq!(plan.bin_path, Some("bin".to_string()));
    assert_eq!(plan.guest_name_prefix, "stateless-validator-ethrex");
    assert_eq!(plan.config.output_folder, "zkevm-metrics");
    assert_eq!(plan.config.sub_folder, Some("ethrex-v7.0.0".to_string()));
    assert_eq!(plan.config.action, Action::Execute);
    assert!(!plan.config.force_rerun);
    assert_eq!(plan.config.dump_inputs_folder, Some("dump".to_string()));
    assert_eq!(
        plan.config.zisk_profile_config.map(|profile| profile.output_folder),
        Some("zisk-profiles".to_string())
    );
    assert_eq!(plan.config.save_proofs_folder, None);
    assert!(matches!(plan.proofs, ProofsSource::Folder(folder) if folder == "zkevm-fixtures-proofs"));
    match plan.source {
        FixtureSource::StatelessValidator { input_folder, fixture, client } => {
            assert_eq!(input_folder, "in");
            assert_eq!(fixture, Some(vec!["block-1".to_string()]));
            assert_eq!(client, stateless_validator::ExecutionClient::Ethrex);
        }
        _ => panic!("another source"),
    }
}

#[test]
fn the_external_validator_is_planned() {
    let mut options = cli(BenchmarkAction::Prove, zisk());
    options.guest_program = GuestProgramCommand::ZiskEthClientReth {
        input_folder: "in".to_string(),
        fixture: None,
    };
    options.save_proofs = Some("proofs".to_string());
    options.force_rerun = true;
    let plan = options.plan("unused").expect("no conflict");
    assert_eq!(plan.guest_name_prefix, "zisk-eth-client-reth");
    assert_eq!(
        plan.config.sub_folder,
        Some("zisk-eth-client-reth-v0.9.0".to_string())
    );
    assert!(plan.config.force_rerun);
    assert!(plan.config.zisk_profile_config.is_none());
    assert_eq!(plan.config.save_proofs_folder, Some("proofs".to_string()));
    assert!(matches!(
        plan.source,
        FixtureSource::ZiskEthClientReth { fixture: None, .. }
    ));
}

#[test]
fn the_empty_program_is_planned() {
    let mut options = cli(BenchmarkAction::Verify, zisk_and_sp1());
    options.proofs_url = Some("url".to_string());
    let plan = options.plan("unused").expect("no conflict");
    assert_eq!(plan.guest_name_prefix, "empty");
    assert_eq!(plan.config.sub_folder, None);
    assert!(matches!(plan.proofs, ProofsSource::Url(url) if url == "url"));
    assert!(matches!(plan.source, FixtureSource::EmptyProgram));
}

#[test]
fn conflicting_options_are_not_planned() {
    let mut options = cli(BenchmarkAction::Execute, zisk());
    options.save_proofs = Some("proofs".to_string());
    let refusal = options.plan("v1").err().unwrap();
    assert_eq!(refusal.conflict, Conflict::SaveProofsNeedsProve);
    assert_eq!(
        refusal.message,
        "--save-proofs is only valid with --action prove"
    );
}

#[test]
fn proofs_are_verified_from_disk_and_fixtures_are_run() {
    assert_eq!(instance_task(Action::Verify), InstanceTask::VerifyFromDisk);
    assert_eq!(instance_task(Action::Execute), InstanceTask::RunFixtures);
    assert_eq!(instance_task(Action::Prove), InstanceTask::RunFixtures);
}
