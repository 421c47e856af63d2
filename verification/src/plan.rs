//! The plan of a benchmark: what the command line options amount to.

use vstd::prelude::*;
use vstd::string::*;

use crate::cli::{
    build_zkvm_config, runner_action, timeouts, validator_client, Cli, Conflict,
    GuestProgramCommand,
};
use crate::runner::{Action, ProfileConfig, RunConfig};
use crate::stateless_validator::{client_name, ExecutionClient};
use crate::text::{concat2, concat3};
use crate::zkvm::{zkVMKind, DockerizedzkVMConfig, ProverResource, ZkVM};

verus! {

/// Where the proofs come from that are to be verified.
#[derive(Debug)]
pub enum ProofsSource {
    /// An archive to download
    Url(String),
    /// A local folder
    Folder(String),
}

/// Where the fixtures of a guest program come from.
#[derive(Debug)]
pub enum FixtureSource {
    /// Fixtures of the stateless validator
    StatelessValidator {
        /// Their folder
        input_folder: String,
        /// Prefixes of the names to run
        fixture: Option<Vec<String>>,
        /// The client whose validator runs
        client: ExecutionClient,
    },
    /// Fixtures that are converted for the external validator
    ZiskEthClientReth {
        /// Their folder
        input_folder: String,
        /// Substrings of the names to run
        fixture: Option<Vec<String>>,
    },
    /// The one fixture of the empty program
    EmptyProgram,
}

/// What a benchmark is going to do.
#[derive(Debug)]
pub struct BenchmarkPlan {
    /// The resource that the zkVMs run on
    pub resource: ProverResource,
    /// The zkVMs to benchmark
    pub zkvms: Vec<ZkVM>,
    /// The timeouts of the zkVMs
    pub zkvm_config: DockerizedzkVMConfig,
    /// Base path for pre-compiled guest program binaries
    pub bin_path: Option<String>,
    /// What the names of the guest programs begin with
    pub guest_name_prefix: String,
    /// The configuration of the run
    pub config: RunConfig,
    /// The proofs to verify
    pub proofs: ProofsSource,
    /// The fixtures to run
    pub source: FixtureSource,
}

/// Why there is no plan.
#[derive(Debug)]
pub struct Refusal {
    /// The options that do not go together
    pub conflict: Conflict,
    /// What tells the user of them
    pub message: String,
}

/// What is done with one zkVM instance.
#[derive(Debug, Clone, Copy, PartialEq, Eq, Structural)]
pub enum InstanceTask {
    /// The saved proofs are verified.
    VerifyFromDisk,
    /// The fixtures are executed or proved.
    RunFixtures,
}

/// What the name of a stateless validator guest begins with, for the execution
/// client of this name.
pub open spec fn el_prefix(el: Seq<char>) -> Seq<char> {
    "stateless-validator-"@ + el
}

/// What the names of a stateless validator's guest programs begin with.
pub fn el_guest_name_prefix(el: &str) -> (prefix: String)
    ensures
        prefix@ == el_prefix(el@),
{
    concat2("stateless-validator-", el)
}

/// What the names of the guest programs begin with.
pub open spec fn guest_prefix(program: GuestProgramCommand) -> Seq<char> {
    match program {
        GuestProgramCommand::StatelessValidator { execution_client, .. } => el_prefix(
            client_name(validator_client(execution_client)),
        ),
        GuestProgramCommand::ZiskEthClientReth { .. } => "zisk-eth-client-reth"@,
        GuestProgramCommand::EmptyProgram => "empty"@,
    }
}

/// The subfolder that the results of a guest program go to. That of a stateless
/// validator carries the version of its execution client.
pub open spec fn result_folder(program: GuestProgramCommand, el_version: Seq<char>) -> Option<
    Seq<char>,
> {
    match program {
        GuestProgramCommand::StatelessValidator { execution_client, .. } => Some(
            client_name(validator_client(execution_client)) + "-"@ + el_version,
        ),
        GuestProgramCommand::ZiskEthClientReth { .. } => Some("zisk-eth-client-reth-v0.9.0"@),
        GuestProgramCommand::EmptyProgram => None,
    }
}

/// Where the fixtures of a guest program come from.
pub open spec fn fixture_source(program: GuestProgramCommand) -> FixtureSource {
    match program {
        GuestProgramCommand::StatelessValidator { input_folder, fixture, execution_client } =>
            FixtureSource::StatelessValidator {
                input_folder,
                fixture,
                client: validator_client(execution_client),
            },
        GuestProgramCommand::ZiskEthClientReth { input_folder, fixture } =>
            FixtureSource::ZiskEthClientReth { input_folder, fixture },
        GuestProgramCommand::EmptyProgram => FixtureSource::EmptyProgram,
    }
}

impl Cli {
    /// Whether `config` is the run configuration that the options amount to.
    pub open spec fn runs_with(&self, el_version: Seq<char>, config: RunConfig) -> bool {
        &&& config.output_folder == self.output_folder
        &&& match result_folder(self.guest_program, el_version) {
            Some(folder) => config.sub_folder is Some && config.sub_folder->0@ == folder,
            None => config.sub_folder is None,
        }
        &&& config.action == runner_action(self.action)
        &&& config.force_rerun == self.force_rerun
        &&& config.dump_inputs_folder == self.dump_inputs
        &&& config.zisk_profile_config == if self.zisk_profile {
            Some(ProfileConfig { output_folder: self.zisk_profile_output })
        } else {
            None
        }
        &&& config.save_proofs_folder == self.save_proofs
    }

    /// Whether `plan` is what the options amount to, for an execution client of
    /// version `el_version`.
    pub open spec fn amounts_to(&self, el_version: Seq<char>, plan: BenchmarkPlan) -> bool {
        &&& self.asks_for(plan.resource)
        &&& plan.zkvms == self.zkvms
        &&& plan.zkvm_config == timeouts(runner_action(self.action), self.timeout)
        &&& plan.bin_path == self.bin_path
        &&& plan.guest_name_prefix@ == guest_prefix(self.guest_program)
        &&& self.runs_with(el_version, plan.config)
        &&& plan.proofs == match self.proofs_url {
            Some(url) => ProofsSource::Url(url),
            None => ProofsSource::Folder(self.proofs_folder),
        }
        &&& plan.source == fixture_source(self.guest_program)
    }

    /// Checks the options and turns them into a plan. `el_version` is the
    /// version of the execution client, for a stateless validator.
    pub fn plan(self, el_version: &str) -> (plan: Result<BenchmarkPlan, Refusal>)
        requires
            self.endpoint_given(),
        ensures
            match plan {
                Ok(plan) => self.conflict() is None && self.amounts_to(el_version@, plan),
                Err(refusal) => self.conflict() == Some(refusal.conflict) && refusal.message@
                    == self.conflict_text(refusal.conflict),
            },
    {
        if let Err(conflict) = self.validate() {
            let message = self.conflict_message(conflict);
            return Err(Refusal { conflict, message });
        }
        let resource = self.prover_resource();
        let action: Action = Action::from(self.action);
        let zkvm_config = build_zkvm_config(action, self.timeout);
        let zisk_profile_config = if self.zisk_profile {
            Some(ProfileConfig { output_folder: self.zisk_profile_output })
        } else {
            None
        };
        let proofs = match self.proofs_url {
            Some(url) => ProofsSource::Url(url),
            None => ProofsSource::Folder(self.proofs_folder),
        };
        let (guest_name_prefix, sub_folder, source) = match self.guest_program {
            GuestProgramCommand::StatelessValidator { input_folder, fixture, execution_client } => {
                let client: ExecutionClient = ExecutionClient::from(execution_client);
                let name = client.lower_name();
                (
                    el_guest_name_prefix(name),
                    Some(concat3(name, "-", el_version)),
                    FixtureSource::StatelessValidator { input_folder, fixture, client },
                )
            },
            GuestProgramCommand::ZiskEthClientReth { input_folder, fixture } => (
                "zisk-eth-client-reth".to_owned(),
                Some("zisk-eth-client-reth-v0.9.0".to_owned()),
                FixtureSource::ZiskEthClientReth { input_folder, fixture },
            ),
            GuestProgramCommand::EmptyProgram => (
                "empty".to_owned(),
                None,
                FixtureSource::EmptyProgram,
            ),
        };
        let config = RunConfig {
            output_folder: self.output_folder,
            sub_folder,
            action,
            force_rerun: self.force_rerun,
            dump_inputs_folder: self.dump_inputs,
            zisk_profile_config,
            save_proofs_folder: self.save_proofs,
        };
        Ok(
            BenchmarkPlan {
                resource,
                zkvms: self.zkvms,
                zkvm_config,
                bin_path: self.bin_path,
                guest_name_prefix,
                config,
                proofs,
                source,
            },
        )
    }
}

/// What is done with one zkVM instance under this action.
pub fn instance_task(action: Action) -> (task: InstanceTask)
    ensures
        task == match action {
            Action::Verify => InstanceTask::VerifyFromDisk,
            Action::Execute | Action::Prove => InstanceTask::RunFixtures,
        },
{
    match action {
        Action::Verify => InstanceTask::VerifyFromDisk,
        Action::Execute | Action::Prove => InstanceTask::RunFixtures,
    }
}

/// Profiling is planned for executions on Zisk alone.
pub proof fn law_profiling_means_zisk_execution(cli: Cli, el_version: Seq<char>, plan: BenchmarkPlan)
    requires
        cli.conflict() is None,
        cli.amounts_to(el_version, plan),
        plan.config.zisk_profile_config is Some,
    ensures
        plan.config.action == Action::Execute,
        plan.zkvms@.len() == 1,
        plan.zkvms@[0].kind == zkVMKind::Zisk,
{
}

/// A planned cluster proves or verifies, with Zisk on every place.
pub proof fn law_cluster_means_zisk_without_execution(
    cli: Cli,
    el_version: Seq<char>,
    plan: BenchmarkPlan,
)
    requires
        cli.conflict() is None,
        cli.amounts_to(el_version, plan),
        plan.resource is Cluster,
    ensures
        plan.config.action != Action::Execute,
        forall|i: int| 0 <= i < plan.zkvms@.len() ==> plan.zkvms@[i].kind == zkVMKind::Zisk,
{
}

/// Proofs are planned to be saved only where they are made, and to be
/// downloaded only where they are verified.
pub proof fn law_proofs_follow_the_action(cli: Cli, el_version: Seq<char>, plan: BenchmarkPlan)
    requires
        cli.conflict() is None,
        cli.amounts_to(el_version, plan),
    ensures
        plan.config.save_proofs_folder is Some ==> plan.config.action == Action::Prove,
        plan.proofs is Url ==> plan.config.action == Action::Verify,
{
}

/// No plan runs on a prover network.
pub proof fn law_no_network(cli: Cli, el_version: Seq<char>, plan: BenchmarkPlan)
    requires
        cli.amounts_to(el_version, plan),
    ensures
        !(plan.resource is Network),
{
}

} // verus!
