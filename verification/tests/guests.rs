use benchmark_runner::duration::Duration;
use benchmark_runner::guests::{
    guest_downloader, load_compiled, CompiledGuest, DownloadFailure, DownloadSource,
    DownloaderError, LoadError, LoadEvent, LoadStage,
};
use benchmark_runner::instances::{
    get_el_zkvm_instances, get_guest_zkvm_instances, BuildError, BuildEvent, BuildStage,
};
use benchmark_runner::zkvm::{
    zkVMKind, Backend, DockerizedzkVMConfig, ProverResource, RemoteProverConfig, ZkVM,
    ZkVMInstance,
};

fn text(value: &str) -> Option<String> {
    Some(value.to_string())
}

#[test]
fn releases_need_no_token() {
    match guest_downloader("tag", "v0.5.0", None, None) {
        Ok(DownloadSource::Tag(tag)) => assert_eq!(tag, "v0.5.0"),
        _ => panic!("no release"),
    }
}

#[test]
fn commits_take_the_first_token() {
    match guest_downloader("commit", "abc", text("first"), text("second")) {
        Ok(DownloadSource::Commit { commit, github_token }) => {
            assert_eq!(commit, "abc");
            assert_eq!(github_token, "first");
        }
        _ => panic!("no commit"),
    }
    match guest_downloader("commit", "abc", None, text("second")) {
        Ok(DownloadSource::Commit { github_token, .. }) => assert_eq!(github_token, "second"),
        _ => panic!("no commit"),
    }
}

#[test]
fn commits_without_a_token_are_refused() {
    let error = guest_downloader("commit", "abc", None, None).err().unwrap();
    assert!(matches!(error, DownloaderError::TokenMissing { .. }));
    assert_eq!(
        error.message(),
        "GITHUB_TOKEN or GH_TOKEN must be set to download guest artifacts for ere-guests commit abc"
    );
}

#[test]
fn other_sources_are_refused() {
    let error = guest_downloader("branch", "main", text("t"), None).err().unwrap();
    assert!(matches!(error, DownloaderError::Unsupported { .. }));
    assert_eq!(
        error.message(),
        "Unsupported ere-guests download source `branch` with value `main`"
    );
}

#[test]
fn sources_that_cannot_be_reached_are_told() {
    assert_eq!(
        DownloadSource::Tag("v0.5.0".to_string()).failure_message(),
        "Failed to create guest program downloader for ere-guests release v0.5.0"
    );
    assert_eq!(
        DownloadSource::Commit {
            commit: "abc".to_string(),
            github_token: "t".to_string(),
        }
        .failure_message(),
        "Failed to create guest program downloader for ere-guests commit abc"
    );
}

fn ok(bytes: &[u8]) -> LoadEvent {
    LoadEvent::Read(Ok(bytes.to_vec()))
}

fn missing() -> LoadEvent {
    LoadEvent::Read(Err("missing".to_string()))
}

#[test]
fn binaries_are_read_from_disk() {
    let load = load_compiled("empty-zisk".to_string(), text("bin"));
    assert!(matches!(load.stage(), LoadStage::ReadElf { path } if path == "bin/empty-zisk.elf"));
    let load = load.step(ok(&[1]));
    assert!(matches!(load.stage(), LoadStage::ReadVk { path, .. } if path == "bin/empty-zisk.vk"));
    let load = load.step(ok(&[2]));
    assert!(matches!(
        load.stage(),
        LoadStage::ReadProfilingElf { path, .. } if path == "bin/empty-zisk-profiling.elf"
    ));
    match load.step(ok(&[3])).into_result() {
        Some(Ok(guest)) => {
            assert_eq!(guest.elf, vec![1]);
            assert_eq!(guest.program_vk, vec![2]);
            assert_eq!(guest.profiling_elf, Some(vec![3]));
        }
        _ => panic!("not loaded"),
    }
}

#[test]
fn a_missing_profiling_elf_does_not_fail_loading() {
    let load = load_compiled("empty-zisk".to_string(), text("bin"));
    match load.step(ok(&[1])).step(ok(&[2])).step(missing()).into_result() {
        Some(Ok(guest)) => assert_eq!(guest.profiling_elf, None),
        _ => panic!("not loaded"),
    }
}

#[test]
fn a_missing_elf_fails_loading() {
    let load = load_compiled("empty-zisk".to_string(), text("bin"));
    match load.step(missing()).into_result() {
        Some(Err(error)) => {
            assert!(matches!(&error, LoadError::ReadElf { error, .. } if error == "missing"));
            assert_eq!(error.message(), "Failed to read ELF from path: bin");
        }
        _ => panic!("loaded"),
    }
}

#[test]
fn a_missing_key_fails_loading() {
    let load = load_compiled("empty-zisk".to_string(), text("bin"));
    match load.step(ok(&[1])).step(missing()).into_result() {
        Some(Err(error)) => {
            assert!(matches!(&error, LoadError::ReadVk { .. }));
            assert_eq!(error.message(), "Failed to read program vk from path: bin");
        }
        _ => panic!("loaded"),
    }
}

#[test]
fn guests_without_binaries_are_downloaded() {
    let load = load_compiled("empty-zisk".to_string(), None);
    assert!(matches!(load.stage(), LoadStage::Download));
    assert_eq!(load.guest_name(), "empty-zisk");
    let guest = CompiledGuest { elf: vec![4], program_vk: vec![5], profiling_elf: None };
    match load.step(LoadEvent::Downloaded(Ok(guest))).into_result() {
        Some(Ok(guest)) => assert_eq!(guest.elf, vec![4]),
        _ => panic!("not loaded"),
    }
}

#[test]
fn failed_downloads_are_told() {
    let load = load_compiled("empty-zisk".to_string(), None);
    let failure = DownloadFailure::Guest("offline".to_string());
    match load.step(LoadEvent::Downloaded(Err(failure))).into_result() {
        Some(Err(error)) => {
            assert!(matches!(&error, LoadError::Download { error, .. } if error == "offline"));
            assert_eq!(error.message(), "Failed to download guest program: empty-zisk");
        }
        _ => panic!("loaded"),
    }
    let load = load_compiled("empty-zisk".to_string(), None);
    let failure = DownloadFailure::Downloader("no token".to_string());
    match load.step(LoadEvent::Downloaded(Err(failure))).into_result() {
        Some(Err(error)) => {
            assert!(matches!(&error, LoadError::Downloader(_)));
            assert_eq!(error.message(), "no token");
        }
        _ => panic!("loaded"),
    }
}

fn zkvm(kind: zkVMKind, id: &str) -> ZkVM {
    ZkVM { kind, id: id.to_string() }
}

fn timeouts(prove_timeout: Option<Duration>) -> DockerizedzkVMConfig {
    DockerizedzkVMConfig { execute_timeout: None, prove_timeout, verify_timeout: None }
}

fn cluster() -> ProverResource {
    ProverResource::Cluster(RemoteProverConfig {
        endpoint: "http://localhost:1".to_string(),
        api_key: None,
    })
}

fn loaded(elf: u8) -> BuildEvent {
    BuildEvent::Loaded(Ok(CompiledGuest {
        elf: vec![elf],
        program_vk: Vec::new(),
        profiling_elf: Some(vec![elf, elf]),
    }))
}

fn built(name: &str) -> BuildEvent {
    BuildEvent::Built(Ok(Backend {
        name: name.to_string(),
        sdk_version: "v1".to_string(),
        program_vk: Vec::new(),
    }))
}

#[test]
fn one_instance_is_made_for_each_zkvm_in_order() {
    let zkvms = vec![zkvm(zkVMKind::SP1, "sp1"), zkvm(zkVMKind::Zisk, "zisk")];
    let build = get_el_zkvm_instances("reth", &zkvms, &ProverResource::Gpu, timeouts(None), None);
    assert!(matches!(
        build.stage(),
        BuildStage::Load { guest_name } if guest_name == "stateless-validator-reth-sp1"
    ));
    let build = build.step(loaded(1));
    assert_eq!(build.current_zkvm().id, "sp1");
    assert!(matches!(build.resource(), ProverResource::Gpu));
    assert_eq!(build.zkvm_config(), timeouts(None));
    assert!(matches!(
        build.stage(),
        BuildStage::Dockerize { zkvm_index: 0, elf, profiling_elf: None } if *elf == vec![1]
    ));
    let build = build.step(built("sp1"));
    assert!(matches!(
        build.stage(),
        BuildStage::Load { guest_name } if guest_name == "stateless-validator-reth-zisk"
    ));
    let build = build.step(loaded(2));
    assert!(matches!(
        build.stage(),
        BuildStage::Dockerize { zkvm_index: 1, elf, profiling_elf: Some(_) } if *elf == vec![2]
    ));
    let build = build.step(built("zisk"));
    assert!(matches!(build.stage(), BuildStage::Finished { result: Ok(()) }));
    let instances = build.into_instances().unwrap();
    assert_eq!(instances.len(), 2);
    assert_eq!(instances[0].name(), "sp1");
    assert_eq!(instances[0].zkvm_kind(), zkVMKind::SP1);
    assert_eq!(instances[0].profiling_elf(), None);
    assert_eq!(instances[1].name(), "zisk");
    assert_eq!(instances[1].profiling_elf(), Some(&vec![2, 2]));
    assert!(matches!(&instances[1], ZkVMInstance::Dockerized { .. }));
}

#[test]
fn clients_guests_are_read_from_their_files() {
    let zkvms = vec![zkvm(zkVMKind::SP1, "sp1")];
    let folder = "bin".to_string();
    let of_el = get_el_zkvm_instances(
        "reth",
        &zkvms,
        &ProverResource::Cpu,
        timeouts(None),
        Some(&folder),
    );
    let of_guest = get_guest_zkvm_instances(
        "stateless-validator-reth",
        &zkvms,
        &ProverResource::Cpu,
        timeouts(None),
        Some(&folder),
    );
    for load in [of_el.load(), of_guest.load()] {
        assert!(matches!(
            load.stage(),
            LoadStage::ReadElf { path } if path == "bin/stateless-validator-reth-sp1.elf"
        ));
    }
    let of_el = get_el_zkvm_instances("reth", &zkvms, &ProverResource::Cpu, timeouts(None), None);
    assert!(matches!(of_el.load().stage(), LoadStage::Download));
}

#[test]
fn a_network_is_no_matter_before_a_guest_is_loaded() {
    let network = ProverResource::Network(RemoteProverConfig {
        endpoint: "http://localhost:1".to_string(),
        api_key: None,
    });
    let none = Vec::new();
    let build = get_guest_zkvm_instances("empty", &none, &network, timeouts(None), None);
    assert_eq!(build.into_instances().unwrap().len(), 0);
    let zkvms = vec![zkvm(zkVMKind::Zisk, "zisk")];
    let build = get_guest_zkvm_instances("empty", &zkvms, &network, timeouts(None), None);
    let failure = LoadError::Downloader("offline".to_string());
    let error = build.step(BuildEvent::Loaded(Err(failure))).into_instances().err().unwrap();
    assert_eq!(error.message(), "offline");
}

#[test]
fn no_zkvms_give_no_instances() {
    let build =
        get_guest_zkvm_instances("empty", &Vec::new(), &ProverResource::Cpu, timeouts(None), None)
            .into_instances();
    assert_eq!(build.unwrap().len(), 0);
}

#[test]
fn cluster_clients_carry_the_prove_timeout() {
    let zkvms = vec![zkvm(zkVMKind::Zisk, "zisk")];
    for (given, used) in [
        (None, None),
        (
            Some(Duration { secs: 60, nanos: 1 }),
            Some(Duration { secs: 60, nanos: 1 }),
        ),
    ] {
        let resource = cluster();
        let build = get_guest_zkvm_instances("empty", &zkvms, &resource, timeouts(given), None);
        let build = build.step(loaded(1));
        assert!(matches!(build.stage(), BuildStage::Connect { .. }));
        let instances = build.step(built("zisk")).into_instances().unwrap();
        match &instances[0] {
            ZkVMInstance::ZiskClusterClient { prove_timeout, profiling_elf, .. } => {
                assert_eq!(*prove_timeout, used);
                assert_eq!(*profiling_elf, Some(vec![1, 1]));
            }
            _ => panic!("not a cluster client"),
        }
    }
}

#[test]
fn clusters_turn_other_zkvms_away() {
    let zkvms = vec![zkvm(zkVMKind::SP1, "sp1")];
    let resource = cluster();
    let build = get_guest_zkvm_instances("empty", &zkvms, &resource, timeouts(None), None);
    let error = build.step(loaded(1)).into_instances().err().unwrap();
    assert!(matches!(error, BuildError::ClusterNotZisk { .. }));
    assert_eq!(error.message(), "Cluster is only implemented for Zisk, got sp1");
}

#[test]
fn instances_that_cannot_be_set_up_fail_the_making() {
    let zkvms = vec![zkvm(zkVMKind::Zisk, "zisk")];
    let build = get_guest_zkvm_instances("empty", &zkvms, &ProverResource::Cpu, timeouts(None), None);
    let error = build
        .step(loaded(1))
        .step(BuildEvent::Built(Err("no docker".to_string())))
        .into_instances()
        .err()
        .unwrap();
    assert!(matches!(&error, BuildError::InitDockerized { error, .. } if error == "no docker"));
    assert_eq!(error.message(), "Failed to initialize DockerizedzkVM, kind zisk");

    let resource = cluster();
    let build = get_guest_zkvm_instances("empty", &zkvms, &resource, timeouts(None), None);
    let error = build
        .step(loaded(1))
        .step(BuildEvent::Built(Err("refused".to_string())))
        .into_instances()
        .err()
        .unwrap();
    assert!(matches!(error, BuildError::Connect(_)));
    assert_eq!(error.message(), "Failed to connect to Zisk cluster: refused");
}

#[test]
fn guests_that_cannot_be_loaded_fail_the_making() {
    let zkvms = vec![zkvm(zkVMKind::Zisk, "zisk")];
    let build = get_guest_zkvm_instances("empty", &zkvms, &ProverResource::Cpu, timeouts(None), None);
    let failure = LoadError::Downloader("offline".to_string());
    let error = build
        .step(BuildEvent::Loaded(Err(failure)))
        .into_instances()
        .err()
        .unwrap();
    assert!(matches!(error, BuildError::Load(_)));
    assert_eq!(error.message(), "offline");
}
