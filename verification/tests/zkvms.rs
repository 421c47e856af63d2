use benchmark_runner::duration::Duration;
use benchmark_runner::zkvm::{
    cluster_prove_output, zkVMKind, Backend, ProveCall, VerifyCall, ZkVMInstance,
};

fn backend(name: &str) -> Backend {
    Backend {
        name: name.to_string(),
        sdk_version: "v1.0".to_string(),
        program_vk: vec![0x00, 0x9f, 0xff],
    }
}

fn dockerized() -> ZkVMInstance {
    ZkVMInstance::Dockerized {
        kind: zkVMKind::SP1,
        zkvm: backend("sp1"),
        profiling_elf: None,
    }
}

fn cluster() -> ZkVMInstance {
    ZkVMInstance::ZiskClusterClient {
        client: backend("zisk"),
        prove_timeout: Some(Duration { secs: 30, nanos: 0 }),
        profiling_elf: Some(vec![0x7f]),
    }
}

#[test]
fn instances_speak_for_their_backend() {
    assert_eq!(dockerized().zkvm_kind(), zkVMKind::SP1);
    assert_eq!(dockerized().name(), "sp1");
    assert_eq!(dockerized().sdk_version(), "v1.0");
    assert_eq!(dockerized().profiling_elf(), None);
    assert_eq!(cluster().zkvm_kind(), zkVMKind::Zisk);
    assert_eq!(cluster().name(), "zisk");
    assert_eq!(cluster().profiling_elf(), Some(&vec![0x7f]));
}

#[test]
fn clusters_do_not_execute() {
    assert_eq!(dockerized().execute(), Ok(()));
    assert_eq!(
        cluster().execute(),
        Err("ZiskClusterClient does not support Action::Execute".to_string())
    );
}

#[test]
fn calls_go_to_the_backend_of_the_instance() {
    assert_eq!(dockerized().prove(), ProveCall::Dockerized);
    assert_eq!(
        cluster().prove(),
        ProveCall::Cluster { timeout: Some(Duration { secs: 30, nanos: 0 }) }
    );
    let patient = ZkVMInstance::ZiskClusterClient {
        client: backend("zisk"),
        prove_timeout: None,
        profiling_elf: None,
    };
    assert_eq!(patient.prove(), ProveCall::Cluster { timeout: None });
    assert_eq!(dockerized().verify(), VerifyCall::Dockerized);
    assert_eq!(cluster().verify(), VerifyCall::Cluster);
}

#[test]
fn debug_text_shows_the_key_in_hexadecimal() {
    assert_eq!(
        dockerized().debug_text(),
        "Dockerized { zkvm: \"sp1\", sdk_version: \"v1.0\", program_vk: \"009fff\" }"
    );
    assert_eq!(
        cluster().debug_text(),
        "ZiskClusterClient { zkvm: \"zisk\", sdk_version: \"v1.0\", program_vk: \"009fff\" }"
    );
}

#[test]
fn debug_text_escapes_quotes() {
    let instance = ZkVMInstance::Dockerized {
        kind: zkVMKind::Other,
        zkvm: backend("a\"b"),
        profiling_elf: None,
    };
    assert!(instance.debug_text().starts_with("Dockerized { zkvm: \"a\\\"b\","));
}

#[test]
fn cluster_proofs_are_put_together() {
    let time = Duration { secs: 4, nanos: 0 };
    let output = cluster_prove_output(Ok(vec![1]), Ok(vec![2, 3]), time).unwrap();
    assert_eq!(output.public_values, vec![1]);
    assert_eq!(output.proof, vec![2, 3]);
    assert_eq!(output.proving_time, time);
}

#[test]
fn unreadable_public_values_are_told_before_an_unencodable_proof() {
    let time = Duration { secs: 4, nanos: 0 };
    assert_eq!(
        cluster_prove_output(Err("values".to_string()), Err("proof".to_string()), time).err(),
        Some("values".to_string())
    );
    assert_eq!(
        cluster_prove_output(Ok(vec![1]), Err("proof".to_string()), time).err(),
        Some("proof".to_string())
    );
}
