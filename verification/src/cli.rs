//! CLI definitions for the zkVM benchmarker, the checks on them, and the
//! timeouts that they ask for.

use vstd::prelude::*;
use vstd::string::*;

use crate::duration::Duration;
use crate::runner::Action;
use crate::stateless_validator;
use crate::text::{comma_separated, concat2};
use crate::zkvm::{zkVMKind, DockerizedzkVMConfig, ProverResource, RemoteProverConfig, ZkVM};

verus! {

/// Seconds that an execution may take unless a timeout is given.
pub const DEFAULT_EXECUTE_TIMEOUT_SECS: u64 = 300;

/// Seconds that a proof may take unless a timeout is given.
pub const DEFAULT_PROVE_TIMEOUT_SECS: u64 = 900;

/// Seconds that a verification may take unless a timeout is given.
pub const DEFAULT_VERIFY_TIMEOUT_SECS: u64 = 2;

/// Prover resource types
#[derive(Debug, Clone, Copy, PartialEq, Eq, Structural)]
pub enum Resource {
    /// CPU resource
    Cpu,
    /// GPU resource
    Gpu,
    /// Proving cluster (requires a cluster endpoint)
    Cluster,
}

/// Benchmark actions
#[derive(Debug, Clone, Copy, PartialEq, Eq, Structural)]
pub enum BenchmarkAction {
    /// Only do zkVM execution
    Execute,
    /// Create a zkVM proof
    Prove,
    /// Verify proofs loaded from disk
    Verify,
}

/// Execution clients for the stateless validator
#[derive(Debug, Clone, Copy, PartialEq, Eq, Structural)]
pub enum ExecutionClient {
    /// Reth execution client
    Reth,
    /// Ethrex execution client
    Ethrex,
}

impl ExecutionClient {
    /// Get the guest relative path for the execution client
    pub fn guest_rel_path(&self) -> (path: String)
        ensures
            path@ == match self {
                ExecutionClient::Reth => "stateless-validator/reth"@,
                ExecutionClient::Ethrex => "stateless-validator/ethrex"@,
            },
    {
        match self {
            ExecutionClient::Reth => "stateless-validator/reth".to_owned(),
            ExecutionClient::Ethrex => "stateless-validator/ethrex".to_owned(),
        }
    }
}

/// The action of the runner that a benchmark action stands for.
pub open spec fn runner_action(action: BenchmarkAction) -> Action {
    match action {
        BenchmarkAction::Execute => Action::Execute,
        BenchmarkAction::Prove => Action::Prove,
        BenchmarkAction::Verify => Action::Verify,
    }
}

impl From<BenchmarkAction> for Action {
    fn from(action: BenchmarkAction) -> (runner_action: Action) {
        match action {
            BenchmarkAction::Execute => Action::Execute,
            BenchmarkAction::Prove => Action::Prove,
            BenchmarkAction::Verify => Action::Verify,
        }
    }
}

impl vstd::std_specs::convert::FromSpecImpl<BenchmarkAction> for Action {
    open spec fn obeys_from_spec() -> bool {
        true
    }

    open spec fn from_spec(action: BenchmarkAction) -> Action {
        runner_action(action)
    }
}

/// The client of the stateless validator that an execution client stands for.
pub open spec fn validator_client(client: ExecutionClient) -> stateless_validator::ExecutionClient {
    match client {
        ExecutionClient::Reth => stateless_validator::ExecutionClient::Reth,
        ExecutionClient::Ethrex => stateless_validator::ExecutionClient::Ethrex,
    }
}

impl From<ExecutionClient> for stateless_validator::ExecutionClient {
    fn from(client: ExecutionClient) -> (validator_client: stateless_validator::ExecutionClient) {
        match client {
            ExecutionClient::Reth => stateless_validator::ExecutionClient::Reth,
            ExecutionClient::Ethrex => stateless_validator::ExecutionClient::Ethrex,
        }
    }
}

impl vstd::std_specs::convert::FromSpecImpl<ExecutionClient> for stateless_validator::ExecutionClient {
    open spec fn obeys_from_spec() -> bool {
        true
    }

    open spec fn from_spec(client: ExecutionClient) -> stateless_validator::ExecutionClient {
        validator_client(client)
    }
}

/// Subcommands for different guest programs
#[derive(Debug)]
pub enum GuestProgramCommand {
    /// Ethereum Stateless Validator
    StatelessValidator {
        /// Input folder for benchmark fixtures
        input_folder: String,
        /// Prefixes of the fixture names to run
        fixture: Option<Vec<String>>,
        /// Execution client to benchmark
        execution_client: ExecutionClient,
    },
    /// External zisk-eth-client stateless validator
    ZiskEthClientReth {
        /// Input folder of the fixture files
        input_folder: String,
        /// Substrings of the fixture names to run
        fixture: Option<Vec<String>>,
    },
    /// Empty program
    EmptyProgram,
}

/// Command line interface for the zkVM benchmarker
#[derive(Debug)]
pub struct Cli {
    /// Resource type for proving
    pub resource: Resource,
    /// Endpoint URL of the proving cluster
    pub cluster_endpoint: Option<String>,
    /// Action to perform
    pub action: BenchmarkAction,
    /// zkVM instances to benchmark
    pub zkvms: Vec<ZkVM>,
    /// Rerun the benchmarks even if the output folder already contains results
    pub force_rerun: bool,
    /// Guest program to benchmark
    pub guest_program: GuestProgramCommand,
    /// Output folder for benchmark results
    pub output_folder: String,
    /// Output folder for dumping input files used in benchmarks
    pub dump_inputs: Option<String>,
    /// Folder that generated proofs are saved to
    pub save_proofs: Option<String>,
    /// Folder containing saved proofs
    pub proofs_folder: String,
    /// URL to an archive containing proofs
    pub proofs_url: Option<String>,
    /// Base path for pre-compiled guest program binaries
    pub bin_path: Option<String>,
    /// Timeout for the selected action only
    pub timeout: Option<Duration>,
    /// Enable Zisk profiling
    pub zisk_profile: bool,
    /// Output folder for Zisk profile results
    pub zisk_profile_output: String,
}

/// Options that do not go together.
#[derive(Debug, Clone, Copy, PartialEq, Eq, Structural)]
pub enum Conflict {
    /// Profiling is asked for with another action than execution.
    ProfileNeedsExecute,
    /// Profiling is asked for with other zkVMs than Zisk alone.
    ProfileNeedsZisk,
    /// Proofs are to be saved without being made.
    SaveProofsNeedsProve,
    /// Proofs are to be downloaded without being verified.
    ProofsUrlNeedsVerify,
    /// A cluster is named that is not used.
    EndpointNeedsCluster,
    /// A cluster is used for another zkVM than Zisk.
    ClusterNeedsZisk,
    /// A cluster is used for an execution.
    ClusterCannotExecute,
}

/// The identifiers of the selected zkVMs.
pub open spec fn zkvm_ids(zkvms: Seq<ZkVM>) -> Seq<Seq<char>> {
    zkvms.map_values(|zkvm: ZkVM| zkvm.id@)
}

/// The name that debug output shows of an action.
pub open spec fn action_name(action: BenchmarkAction) -> Seq<char> {
    match action {
        BenchmarkAction::Execute => "Execute"@,
        BenchmarkAction::Prove => "Prove"@,
        BenchmarkAction::Verify => "Verify"@,
    }
}

impl Cli {
    /// Whether only Zisk was selected, and once.
    pub open spec fn zisk_alone(&self) -> bool {
        self.zkvms@.len() == 1 && self.zkvms@[0].kind == zkVMKind::Zisk
    }

    /// Whether every selected zkVM is Zisk.
    pub open spec fn all_zisk(&self) -> bool {
        forall|i: int| 0 <= i < self.zkvms@.len() ==> self.zkvms@[i].kind == zkVMKind::Zisk
    }

    /// The conflict that is found first among the options.
    pub open spec fn conflict(&self) -> Option<Conflict> {
        if self.zisk_profile && self.action != BenchmarkAction::Execute {
            Some(Conflict::ProfileNeedsExecute)
        } else if self.zisk_profile && !self.zisk_alone() {
            Some(Conflict::ProfileNeedsZisk)
        } else if self.save_proofs is Some && self.action != BenchmarkAction::Prove {
            Some(Conflict::SaveProofsNeedsProve)
        } else if self.proofs_url is Some && self.action != BenchmarkAction::Verify {
            Some(Conflict::ProofsUrlNeedsVerify)
        } else if self.cluster_endpoint is Some && self.resource != Resource::Cluster {
            Some(Conflict::EndpointNeedsCluster)
        } else if self.resource == Resource::Cluster && !self.all_zisk() {
            Some(Conflict::ClusterNeedsZisk)
        } else if self.resource == Resource::Cluster && self.action == BenchmarkAction::Execute {
            Some(Conflict::ClusterCannotExecute)
        } else {
            None
        }
    }

    /// Whether a cluster comes with its endpoint. The command line parser sees
    /// to it.
    pub open spec fn endpoint_given(&self) -> bool {
        self.resource == Resource::Cluster ==> self.cluster_endpoint is Some
    }

    /// Whether every selected zkVM is Zisk.
    fn only_zisk(&self) -> (all: bool)
        ensures
            all == self.all_zisk(),
    {
        let mut i: usize = 0;
        while i < self.zkvms.len()
            invariant
                i <= self.zkvms@.len(),
                forall|j: int| 0 <= j < i ==> self.zkvms@[j].kind == zkVMKind::Zisk,
            decreases self.zkvms@.len() - i,
        {
            if self.zkvms[i].kind != zkVMKind::Zisk {
                return false;
            }
            i = i + 1;
        }
        true
    }

    /// Checks that the options go together, and names the first conflict where
    /// they do not.
    pub fn validate(&self) -> (checked: Result<(), Conflict>)
        ensures
            match self.conflict() {
                Some(conflict) => checked == Err::<(), Conflict>(conflict),
                None => checked is Ok,
            },
    {
        if self.zisk_profile {
            if self.action != BenchmarkAction::Execute {
                return Err(Conflict::ProfileNeedsExecute);
            }
            if self.zkvms.len() != 1 || self.zkvms[0].kind != zkVMKind::Zisk {
                return Err(Conflict::ProfileNeedsZisk);
            }
        }
        if self.save_proofs.is_some() && self.action != BenchmarkAction::Prove {
            return Err(Conflict::SaveProofsNeedsProve);
        }
        if self.proofs_url.is_some() && self.action != BenchmarkAction::Verify {
            return Err(Conflict::ProofsUrlNeedsVerify);
        }
        if self.cluster_endpoint.is_some() && self.resource != Resource::Cluster {
            return Err(Conflict::EndpointNeedsCluster);
        }
        if self.resource == Resource::Cluster {
            if !self.only_zisk() {
                return Err(Conflict::ClusterNeedsZisk);
            }
            if self.action == BenchmarkAction::Execute {
                return Err(Conflict::ClusterCannotExecute);
            }
        }
        Ok(())
    }

    /// The text that tells the user of a conflict among these options.
    pub open spec fn conflict_text(&self, conflict: Conflict) -> Seq<char> {
        match conflict {
            Conflict::ProfileNeedsExecute =>
                "--zisk-profile requires --action execute, but got "@ + action_name(self.action),
            Conflict::ProfileNeedsZisk => "--zisk-profile requires --zkvms zisk only, but got: "@
                + comma_separated(zkvm_ids(self.zkvms@)),
            Conflict::SaveProofsNeedsProve => "--save-proofs is only valid with --action prove"@,
            Conflict::ProofsUrlNeedsVerify => "--proofs-url is only valid with --action verify"@,
            Conflict::EndpointNeedsCluster =>
                "--cluster-endpoint is only valid with --resource cluster"@,
            Conflict::ClusterNeedsZisk =>
                "--resource cluster is only implemented for --zkvms zisk"@,
            Conflict::ClusterCannotExecute =>
                "--resource cluster is not implemented for --action execute"@,
        }
    }

    /// The identifiers of the selected zkVMs, separated by commas.
    fn zkvm_list(&self) -> (list: String)
        ensures
            list@ == comma_separated(zkvm_ids(self.zkvms@)),
    {
        let ghost ids = zkvm_ids(self.zkvms@);
        let mut list = String::new();
        let mut i: usize = 0;
        while i < self.zkvms.len()
            invariant
                i <= self.zkvms@.len(),
                ids == zkvm_ids(self.zkvms@),
                list@ == comma_separated(ids.take(i as int)),
            decreases self.zkvms@.len() - i,
        {
            proof {
                let longer = ids.take(i + 1);
                assert(longer.drop_last() =~= ids.take(i as int));
                assert(longer.last() == ids[i as int]);
                if i == 0 {
                    assert(longer[0] == ids[0]);
                    assert(list@ + ids[0] =~= ids[0]);
                }
            }
            if i > 0 {
                list.append(", ");
            }
            list.append(self.zkvms[i].id.as_str());
            i = i + 1;
        }
        assert(ids.take(i as int) =~= ids);
        list
    }

    /// Tells the user of a conflict among these options.
    pub fn conflict_message(&self, conflict: Conflict) -> (message: String)
        ensures
            message@ == self.conflict_text(conflict),
    {
        match conflict {
            Conflict::ProfileNeedsExecute => {
                let name = match self.action {
                    BenchmarkAction::Execute => "Execute",
                    BenchmarkAction::Prove => "Prove",
                    BenchmarkAction::Verify => "Verify",
                };
                concat2("--zisk-profile requires --action execute, but got ", name)
            },
            Conflict::ProfileNeedsZisk => concat2(
                "--zisk-profile requires --zkvms zisk only, but got: ",
                self.zkvm_list().as_str(),
            ),
            Conflict::SaveProofsNeedsProve =>
                "--save-proofs is only valid with --action prove".to_owned(),
            Conflict::ProofsUrlNeedsVerify =>
                "--proofs-url is only valid with --action verify".to_owned(),
            Conflict::EndpointNeedsCluster =>
                "--cluster-endpoint is only valid with --resource cluster".to_owned(),
            Conflict::ClusterNeedsZisk =>
                "--resource cluster is only implemented for --zkvms zisk".to_owned(),
            Conflict::ClusterCannotExecute =>
                "--resource cluster is not implemented for --action execute".to_owned(),
        }
    }

    /// Whether `resource` is the one that the options ask for. A cluster is
    /// reached at the given endpoint, without a key.
    pub open spec fn asks_for(&self, resource: ProverResource) -> bool {
        match self.resource {
            Resource::Cpu => resource is Cpu,
            Resource::Gpu => resource is Gpu,
            Resource::Cluster => resource matches ProverResource::Cluster(prover)
                && self.cluster_endpoint is Some && prover.endpoint@ == self.cluster_endpoint->0@
                && prover.api_key is None,
        }
    }

    /// Builds the prover resource from the parsed arguments.
    pub fn prover_resource(&self) -> (resource: ProverResource)
        requires
            self.endpoint_given(),
        ensures
            self.asks_for(resource),
    {
        match self.resource {
            Resource::Cpu => ProverResource::Cpu,
            Resource::Gpu => ProverResource::Gpu,
            Resource::Cluster => {
                let endpoint = match &self.cluster_endpoint {
                    Some(endpoint) => endpoint.clone(),
                    None => String::new(),
                };
                ProverResource::Cluster(RemoteProverConfig { endpoint, api_key: None })
            },
        }
    }
}

/// The timeouts that are in force: the defaults, with the given one in place of
/// that of the action.
pub open spec fn timeouts(action: Action, given: Option<Duration>) -> DockerizedzkVMConfig {
    let defaults = DockerizedzkVMConfig {
        execute_timeout: Some(Duration { secs: DEFAULT_EXECUTE_TIMEOUT_SECS, nanos: 0 }),
        prove_timeout: Some(Duration { secs: DEFAULT_PROVE_TIMEOUT_SECS, nanos: 0 }),
        verify_timeout: Some(Duration { secs: DEFAULT_VERIFY_TIMEOUT_SECS, nanos: 0 }),
    };
    match (given, action) {
        (None, _) => defaults,
        (Some(_), Action::Execute) => DockerizedzkVMConfig { execute_timeout: given, ..defaults },
        (Some(_), Action::Prove) => DockerizedzkVMConfig { prove_timeout: given, ..defaults },
        (Some(_), Action::Verify) => DockerizedzkVMConfig { verify_timeout: given, ..defaults },
    }
}

/// The timeouts of a run: the defaults, with the given timeout in place of that
/// of the selected action.
pub fn build_zkvm_config(action: Action, timeout_override: Option<Duration>) -> (config:
    DockerizedzkVMConfig)
    ensures
        config == timeouts(action, timeout_override),
{
    let mut config = DockerizedzkVMConfig {
        execute_timeout: Some(Duration::from_secs(DEFAULT_EXECUTE_TIMEOUT_SECS)),
        prove_timeout: Some(Duration::from_secs(DEFAULT_PROVE_TIMEOUT_SECS)),
        verify_timeout: Some(Duration::from_secs(DEFAULT_VERIFY_TIMEOUT_SECS)),
    };
    if let Some(timeout) = timeout_override {
        match action {
            Action::Execute => {
                config.execute_timeout = Some(timeout);
            },
            Action::Prove => {
                config.prove_timeout = Some(timeout);
            },
            Action::Verify => {
                config.verify_timeout = Some(timeout);
            },
        }
    }
    config
}

/// A given timeout is that of the selected action, and the two others keep
/// their defaults. Without one all three have their defaults.
pub proof fn law_timeout_is_for_the_action_only(action: Action, given: Duration)
    ensures
        ({
            let with = timeouts(action, Some(given));
            let without = timeouts(action, None);
            &&& with.execute_timeout == if action == Action::Execute {
                Some(given)
            } else {
                without.execute_timeout
            }
            &&& with.prove_timeout == if action == Action::Prove {
                Some(given)
            } else {
                without.prove_timeout
            }
            &&& with.verify_timeout == if action == Action::Verify {
                Some(given)
            } else {
                without.verify_timeout
            }
        }),
        forall|other: Action| timeouts(other, None) == timeouts(action, None),
{
}

/// Every action of the runner is reached from the command line, and from one
/// benchmark action only.
pub proof fn law_actions_correspond(action: Action)
    ensures
        exists|chosen: BenchmarkAction| #[trigger] runner_action(chosen) == action,
        forall|a: BenchmarkAction, b: BenchmarkAction| #[trigger]
            runner_action(a) == #[trigger] runner_action(b) ==> a == b,
{
    let chosen = match action {
        Action::Execute => BenchmarkAction::Execute,
        Action::Prove => BenchmarkAction::Prove,
        Action::Verify => BenchmarkAction::Verify,
    };
    assert(runner_action(chosen) == action);
}

} // verus!
