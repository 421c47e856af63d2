//! The zkVMs that benchmarks run on, and the calls that an instance routes to
//! its backend.

use vstd::prelude::*;
use vstd::string::*;

use crate::duration::Duration;
use crate::text::concat3;

verus! {

/// The zkVMs that the runner treats apart. The others behave alike.
#[allow(non_camel_case_types)]
#[derive(Debug, Clone, Copy, PartialEq, Eq, Structural)]
pub enum zkVMKind {
    /// Airbender
    Airbender,
    /// OpenVM
    OpenVM,
    /// SP1
    SP1,
    /// Zisk
    Zisk,
    /// Any other zkVM
    Other,
}

/// A zkVM that was selected on the command line.
#[derive(Debug)]
pub struct ZkVM {
    /// Its kind.
    pub kind: zkVMKind,
    /// Its identifier, as guest programs and messages write it.
    pub id: String,
}

/// Timeouts of the calls to a zkVM. `None` stands for no timeout.
#[allow(non_camel_case_types)]
#[derive(Debug, Clone, Copy, PartialEq, Eq, Structural)]
pub struct DockerizedzkVMConfig {
    /// Timeout of an execution.
    pub execute_timeout: Option<Duration>,
    /// Timeout of a proof generation.
    pub prove_timeout: Option<Duration>,
    /// Timeout of a proof verification.
    pub verify_timeout: Option<Duration>,
}

/// How a remote prover is reached.
#[derive(Debug)]
pub struct RemoteProverConfig {
    /// URL of its endpoint.
    pub endpoint: String,
    /// Key that authorises the requests.
    pub api_key: Option<String>,
}

/// The resource that proofs are made on.
#[derive(Debug)]
pub enum ProverResource {
    /// The local CPU
    Cpu,
    /// The local GPU
    Gpu,
    /// A proving cluster
    Cluster(RemoteProverConfig),
    /// A prover network
    Network(RemoteProverConfig),
}

/// What a zkVM backend says of itself.
#[derive(Debug)]
pub struct Backend {
    /// The name of the zkVM.
    pub name: String,
    /// The version of the zkVM's SDK.
    pub sdk_version: String,
    /// The encoded verifying key of the guest program.
    pub program_vk: Vec<u8>,
}

/// A zkVM instance together with the ELF that it is profiled with.
pub enum ZkVMInstance {
    /// Dockerized zkVM instance
    Dockerized {
        /// The kind of zkVM that it was set up as
        kind: zkVMKind,
        /// What the zkVM says of itself
        zkvm: Backend,
        /// ELF of the Zisk guest with feature `cycle-scope` enabled.
        /// `Some` only if the guest is a Zisk guest.
        profiling_elf: Option<Vec<u8>>,
    },
    /// Remote Zisk proving cluster client
    ZiskClusterClient {
        /// What the client's verifier says of itself
        client: Backend,
        /// Cap on the time of one prove request: the prove timeout of the
        /// configuration. `None` means no cap.
        prove_timeout: Option<Duration>,
        /// ELF of the Zisk guest with feature `cycle-scope` enabled.
        /// `Some` only if the guest is a Zisk guest.
        profiling_elf: Option<Vec<u8>>,
    },
}

/// The backend call that proves on an instance.
#[derive(Debug, Clone, Copy, PartialEq, Eq, Structural)]
pub enum ProveCall {
    /// The dockerized zkVM proves.
    Dockerized,
    /// The cluster proves until `timeout` has passed since the call, and as long
    /// as it takes where there is none.
    Cluster {
        /// Time that the cluster is given. `None` means no cap.
        timeout: Option<Duration>,
    },
}

/// The backend call that verifies on an instance.
#[derive(Debug, Clone, Copy, PartialEq, Eq, Structural)]
pub enum VerifyCall {
    /// The dockerized zkVM verifies the encoded proof.
    Dockerized,
    /// The proof is decoded and the cluster client's verifier verifies it.
    Cluster,
}

/// What a successful prove call hands back.
#[derive(Debug)]
pub struct ProveOutput {
    /// The public values that the proof commits to.
    pub public_values: Vec<u8>,
    /// The encoded proof.
    pub proof: Vec<u8>,
    /// How long the proof took.
    pub proving_time: Duration,
}

/// The reason a cluster client gives for refusing an execution.
pub open spec fn cluster_execute_refusal() -> Seq<char> {
    "ZiskClusterClient does not support Action::Execute"@
}

impl ZkVMInstance {
    /// The backend behind the instance.
    pub open spec fn backend(&self) -> Backend {
        match self {
            ZkVMInstance::Dockerized { zkvm, .. } => *zkvm,
            ZkVMInstance::ZiskClusterClient { client, .. } => *client,
        }
    }

    /// The ELF for profiling.
    pub open spec fn elf(&self) -> Option<Vec<u8>> {
        match self {
            ZkVMInstance::Dockerized { profiling_elf, .. } => *profiling_elf,
            ZkVMInstance::ZiskClusterClient { profiling_elf, .. } => *profiling_elf,
        }
    }

    /// The kind of the instance.
    pub open spec fn kind(&self) -> zkVMKind {
        match self {
            ZkVMInstance::Dockerized { kind, .. } => *kind,
            ZkVMInstance::ZiskClusterClient { .. } => zkVMKind::Zisk,
        }
    }

    /// Returns the zkVM kind.
    pub fn zkvm_kind(&self) -> (kind: zkVMKind)
        ensures
            kind == self.kind(),
    {
        match self {
            ZkVMInstance::Dockerized { kind, .. } => *kind,
            ZkVMInstance::ZiskClusterClient { .. } => zkVMKind::Zisk,
        }
    }

    /// Returns the zkVM name.
    pub fn name(&self) -> (name: &str)
        ensures
            name@ == self.backend().name@,
    {
        match self {
            ZkVMInstance::Dockerized { zkvm, .. } => zkvm.name.as_str(),
            ZkVMInstance::ZiskClusterClient { client, .. } => client.name.as_str(),
        }
    }

    /// Returns the zkVM SDK version.
    pub fn sdk_version(&self) -> (version: &str)
        ensures
            version@ == self.backend().sdk_version@,
    {
        match self {
            ZkVMInstance::Dockerized { zkvm, .. } => zkvm.sdk_version.as_str(),
            ZkVMInstance::ZiskClusterClient { client, .. } => client.sdk_version.as_str(),
        }
    }

    /// Returns the ELF for Zisk profiling.
    pub fn profiling_elf(&self) -> (elf: Option<&Vec<u8>>)
        ensures
            match elf {
                Some(elf) => self.elf() == Some(*elf),
                None => self.elf() is None,
            },
    {
        match self {
            ZkVMInstance::Dockerized { profiling_elf, .. } => profiling_elf.as_ref(),
            ZkVMInstance::ZiskClusterClient { profiling_elf, .. } => profiling_elf.as_ref(),
        }
    }

    /// Says whether the dockerized zkVM is to execute the guest program. A
    /// cluster client refuses, with its reason.
    pub fn execute(&self) -> (call: Result<(), String>)
        ensures
            match call {
                Ok(_) => self is Dockerized,
                Err(reason) => self is ZiskClusterClient && reason@ == cluster_execute_refusal(),
            },
    {
        match self {
            ZkVMInstance::Dockerized { .. } => Ok(()),
            ZkVMInstance::ZiskClusterClient { .. } => Err(
                "ZiskClusterClient does not support Action::Execute".to_owned(),
            ),
        }
    }

    /// The call that generates a proof on this instance.
    pub fn prove(&self) -> (call: ProveCall)
        ensures
            call == match self {
                ZkVMInstance::Dockerized { .. } => ProveCall::Dockerized,
                ZkVMInstance::ZiskClusterClient { prove_timeout, .. } => ProveCall::Cluster {
                    timeout: *prove_timeout,
                },
            },
    {
        match self {
            ZkVMInstance::Dockerized { .. } => ProveCall::Dockerized,
            ZkVMInstance::ZiskClusterClient { prove_timeout, .. } => ProveCall::Cluster {
                timeout: *prove_timeout,
            },
        }
    }

    /// The call that verifies a proof on this instance.
    pub fn verify(&self) -> (call: VerifyCall)
        ensures
            call == match self {
                ZkVMInstance::Dockerized { .. } => VerifyCall::Dockerized,
                ZkVMInstance::ZiskClusterClient { .. } => VerifyCall::Cluster,
            },
    {
        match self {
            ZkVMInstance::Dockerized { .. } => VerifyCall::Dockerized,
            ZkVMInstance::ZiskClusterClient { .. } => VerifyCall::Cluster,
        }
    }

    /// The text that debug output shows of the instance: the backend's name,
    /// SDK version and hexadecimal verifying key, each quoted.
    pub fn debug_text(&self) -> (text: String)
        ensures
            text@ == debug_head(self) + str_debug(self.backend().name@) + ", sdk_version: "@
                + str_debug(self.backend().sdk_version@) + ", program_vk: "@ + str_debug(
                hex_lower(self.backend().program_vk@),
            ) + " }"@,
    {
        let (head, backend) = match self {
            ZkVMInstance::Dockerized { zkvm, .. } => ("Dockerized { zkvm: ", zkvm),
            ZkVMInstance::ZiskClusterClient { client, .. } => (
                "ZiskClusterClient { zkvm: ",
                client,
            ),
        };
        let name = quoted(backend.name.as_str());
        let version = quoted(backend.sdk_version.as_str());
        let vk = quoted(hex_encode(backend.program_vk.as_slice()).as_str());
        let mut text = concat3(head, name.as_str(), ", sdk_version: ");
        text.append(version.as_str());
        text.append(", program_vk: ");
        text.append(vk.as_str());
        text.append(" }");
        text
    }
}

/// How the debug text of `instance` begins.
pub open spec fn debug_head(instance: &ZkVMInstance) -> Seq<char> {
    match instance {
        ZkVMInstance::Dockerized { .. } => "Dockerized { zkvm: "@,
        ZkVMInstance::ZiskClusterClient { .. } => "ZiskClusterClient { zkvm: "@,
    }
}

/// Assembles what a cluster's proof request hands back: the public values that
/// the proof was read to commit to, its encoding, and the proving time. The
/// failure to read the public values comes before that to encode the proof.
pub fn cluster_prove_output(
    public_values: Result<Vec<u8>, String>,
    encoded: Result<Vec<u8>, String>,
    proving_time: Duration,
) -> (output: Result<ProveOutput, String>)
    ensures
        match (public_values, encoded) {
            (Ok(public_values), Ok(proof)) => output == Ok::<ProveOutput, String>(
                ProveOutput { public_values, proof, proving_time },
            ),
            (Err(error), _) => output == Err::<ProveOutput, String>(error),
            (Ok(_), Err(error)) => output == Err::<ProveOutput, String>(error),
        },
{
    let public_values = match public_values {
        Ok(public_values) => public_values,
        Err(error) => return Err(error),
    };
    match encoded {
        Ok(proof) => Ok(ProveOutput { public_values, proof, proving_time }),
        Err(error) => Err(error),
    }
}

/// The lower-case hexadecimal digit of `value`.
pub open spec fn hex_digit(value: int) -> char {
    if value < 10 {
        ('0' as int + value) as char
    } else {
        ('a' as int + value - 10) as char
    }
}

/// Two lower-case hexadecimal digits for each byte, the high half first.
pub open spec fn hex_lower(bytes: Seq<u8>) -> Seq<char> {
    Seq::new(
        2 * bytes.len(),
        |i: int|
            if i % 2 == 0 {
                hex_digit(bytes[i / 2] as int / 16)
            } else {
                hex_digit(bytes[i / 2] as int % 16)
            },
    )
}

/// Calls `hex::encode`: each byte becomes two lower-case hexadecimal digits,
/// the high half first.
#[verifier::external_body]
fn hex_encode(bytes: &[u8]) -> (text: String)
    ensures
        text@ == hex_lower(bytes@),
{
    hex::encode(bytes)
}

/// The text that the `Debug` format of a string slice writes.
pub uninterp spec fn str_debug(text: Seq<char>) -> Seq<char>;

/// Formats `text` with std's `Debug` for `str`: quoted, with the characters
/// escaped that it escapes. What it writes is claimed to be the same for the
/// same text.
#[verifier::external_body]
fn quoted(text: &str) -> (shown: String)
    ensures
        shown@ == str_debug(text@),
{
    format!("{:?}", text)
}

} // verus!
