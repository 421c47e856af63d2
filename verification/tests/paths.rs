use benchmark_runner::runner::{
    benchmark_output_dir, benchmark_output_dir_for_name, benchmark_output_path,
    benchmark_output_path_for_name, benchmark_zkvm_name, dump_paths, existing_output_dir,
    get_panic_msg, hardware_path, proof_paths, sub_folder_or_empty, Action, PanicPayload,
    RunConfig,
};
use benchmark_runner::text::{concat2, concat3, join_path, same_text};
use benchmark_runner::zkvm::{zkVMKind, Backend, ZkVMInstance};

fn zisk() -> ZkVMInstance {
    ZkVMInstance::Dockerized {
        kind: zkVMKind::Zisk,
        zkvm: Backend {
            name: "zisk".to_string(),
            sdk_version: "0.9.0".to_string(),
            program_vk: vec![1, 2],
        },
        profiling_elf: None,
    }
}

fn config(sub_folder: Option<&str>, force_rerun: bool) -> RunConfig {
    RunConfig {
        output_folder: "zkevm-metrics".to_string(),
        sub_folder: sub_folder.map(|folder| folder.to_string()),
        action: Action::Execute,
        force_rerun,
        dump_inputs_folder: None,
        zisk_profile_config: None,
        save_proofs_folder: None,
    }
}

#[test]
fn join_adds_one_separator() {
    assert_eq!(join_path("out", "reth"), "out/reth");
    assert_eq!(join_path("out/", "reth"), "out/reth");
    assert_eq!(join_path("", "reth"), "reth");
}

#[test]
fn join_with_an_absolute_path_replaces() {
    assert_eq!(join_path("out", "/reth"), "/reth");
}

#[test]
fn join_with_the_empty_path_ends_in_a_separator() {
    assert_eq!(join_path("out", ""), "out/");
    assert_eq!(join_path("", ""), "");
}

#[test]
fn join_writes_what_std_writes() {
    for base in ["", "a", "a/", "/", "/a", "ä"] {
        for part in ["", "b", "b/c", "/b", "..", "ß"] {
            let joined = std::path::Path::new(base).join(part);
            assert_eq!(join_path(base, part), joined.to_str().unwrap());
        }
    }
}

#[test]
fn texts_are_put_together_and_compared() {
    assert_eq!(concat2("a", "b"), "ab");
    assert_eq!(concat3("a", "-", "b"), "a-b");
    assert!(same_text("tag", "tag"));
    assert!(!same_text("tag", "tags"));
}

#[test]
fn results_are_filed_under_name_and_version() {
    assert_eq!(benchmark_zkvm_name(&zisk()), "zisk-0.9.0");
}

#[test]
fn reports_lie_below_the_output_folder() {
    let config = config(Some("reth-v1.2.3"), false);
    assert_eq!(
        benchmark_output_dir(&zisk(), &config),
        "zkevm-metrics/reth-v1.2.3/zisk-0.9.0"
    );
    assert_eq!(
        benchmark_output_path(&zisk(), &config, "block-1"),
        "zkevm-metrics/reth-v1.2.3/zisk-0.9.0/block-1.json"
    );
    assert_eq!(
        benchmark_output_dir_for_name(&config, "sp1-v5"),
        "zkevm-metrics/reth-v1.2.3/sp1-v5"
    );
    assert_eq!(
        benchmark_output_path_for_name(&config, "sp1-v5", "empty"),
        "zkevm-metrics/reth-v1.2.3/sp1-v5/empty.json"
    );
}

#[test]
fn reports_without_a_subfolder_lie_in_the_output_folder_itself() {
    let config = config(None, false);
    assert_eq!(sub_folder_or_empty(&config), "");
    assert_eq!(
        benchmark_output_path(&zisk(), &config, "empty"),
        "zkevm-metrics/zisk-0.9.0/empty.json"
    );
}

#[test]
fn forced_reruns_spare_no_fixture() {
    assert_eq!(
        existing_output_dir(&zisk(), &config(None, false)),
        Some("zkevm-metrics/zisk-0.9.0".to_string())
    );
    assert_eq!(existing_output_dir(&zisk(), &config(None, true)), None);
}

#[test]
fn hardware_is_described_in_the_output_folder() {
    assert_eq!(
        hardware_path(&config(Some("reth-v1.2.3"), false)),
        "zkevm-metrics/hardware.json"
    );
}

#[test]
fn dumps_are_shared_between_zkvms() {
    assert_eq!(
        dump_paths("dump", "reth-v1.2.3", "block-1"),
        (
            "dump/reth-v1.2.3".to_string(),
            "dump/reth-v1.2.3/block-1.bin".to_string()
        )
    );
}

#[test]
fn proofs_are_filed_by_zkvm() {
    assert_eq!(
        proof_paths("proofs", "", "zisk-0.9.0", "block-1"),
        (
            "proofs/zisk-0.9.0".to_string(),
            "proofs/zisk-0.9.0/block-1.proof".to_string()
        )
    );
}

#[test]
fn different_fixtures_have_different_files() {
    let config = config(Some("s"), false);
    assert_ne!(
        benchmark_output_path(&zisk(), &config, "a"),
        benchmark_output_path(&zisk(), &config, "b")
    );
    assert_ne!(dump_paths("d", "s", "a").1, dump_paths("d", "s", "b").1);
    assert_ne!(
        proof_paths("p", "s", "z", "a").1,
        proof_paths("p", "s", "z", "b").1
    );
}

#[test]
fn different_zkvms_have_different_reports() {
    let config = config(Some("s"), false);
    assert_ne!(
        benchmark_output_path_for_name(&config, "zisk-0.9.0", "a"),
        benchmark_output_path_for_name(&config, "zisk-0.9.1", "a")
    );
}

#[test]
fn panics_with_text_give_their_text() {
    assert_eq!(get_panic_msg(PanicPayload::Slice("a".to_string())), "a");
    assert_eq!(get_panic_msg(PanicPayload::Owned("b".to_string())), "b");
    assert_eq!(get_panic_msg(PanicPayload::Other), "Unknown panic occurred");
}
