//! Which options go together, and what a benchmark makes of them, told from the
//! options themselves.

use vstd::prelude::*;
use vstd::string::*;

use crate::cli::{
    build_zkvm_config, zkvm_ids, BenchmarkAction, Cli, Conflict, ExecutionClient,
    GuestProgramCommand, Resource,
};
use crate::duration::{
    humantime_duration, parse_duration, parse_short_duration, stays_short, Duration,
};
use crate::plan::{
    el_guest_name_prefix, instance_task, BenchmarkPlan, FixtureSource, InstanceTask, ProofsSource,
    Refusal,
};
use crate::runner::Action;
use crate::stateless_validator;
use crate::zkvm::{DockerizedzkVMConfig, ProverResource, ZkVM};

verus! {

/// Options without profiling, without proofs to save or to download and without a
/// cluster go together, whatever the action, the zkVMs and the local resource are.
pub proof fn law_plain_options_go_together(cli: Cli, checked: Result<(), Conflict>)
    requires
        call_ensures(Cli::validate, (&cli,), checked),
        !cli.zisk_profile,
        cli.save_proofs is None,
        cli.proofs_url is None,
        cli.cluster_endpoint is None,
        cli.resource == Resource::Cpu || cli.resource == Resource::Gpu,
    ensures
        checked is Ok,
        cli.conflict() is None,
{
}

/// A conflict is found only among options that were given: each of the seven has
/// its cause in the options.
pub proof fn law_a_conflict_has_its_cause(cli: Cli, checked: Result<(), Conflict>)
    requires
        call_ensures(Cli::validate, (&cli,), checked),
        checked is Err,
    ensures
        cli.conflict() == Some(checked->Err_0),
        match checked->Err_0 {
            Conflict::ProfileNeedsExecute => cli.zisk_profile && !(cli.action is Execute),
            Conflict::ProfileNeedsZisk => cli.zisk_profile && (cli.zkvms@.len() != 1
                || !(cli.zkvms@[0].kind is Zisk)),
            Conflict::SaveProofsNeedsProve => cli.save_proofs is Some && !(cli.action is Prove),
            Conflict::ProofsUrlNeedsVerify => cli.proofs_url is Some && !(cli.action is Verify),
            Conflict::EndpointNeedsCluster => cli.cluster_endpoint is Some && !(cli.resource
                is Cluster),
            Conflict::ClusterNeedsZisk => cli.resource is Cluster && exists|i: int|
                0 <= i < cli.zkvms@.len() && !((#[trigger] cli.zkvms@[i]).kind is Zisk),
            Conflict::ClusterCannotExecute => cli.resource is Cluster && cli.action is Execute,
        },
{
}

/// Options that are accepted have none of the seven causes of a conflict.
pub proof fn law_accepted_options_have_no_cause(cli: Cli, checked: Result<(), Conflict>)
    requires
        call_ensures(Cli::validate, (&cli,), checked),
        checked is Ok,
    ensures
        cli.conflict() is None,
        cli.zisk_profile ==> cli.action is Execute,
        cli.zisk_profile ==> cli.zkvms@.len() == 1 && cli.zkvms@[0].kind is Zisk,
        cli.save_proofs is Some ==> cli.action is Prove,
        cli.proofs_url is Some ==> cli.action is Verify,
        cli.cluster_endpoint is Some ==> cli.resource is Cluster,
        cli.resource is Cluster ==> !(cli.action is Execute),
        cli.resource is Cluster ==> forall|i: int|
            0 <= i < cli.zkvms@.len() ==> (#[trigger] cli.zkvms@[i]).kind is Zisk,
{
}

/// Of several conflicts the one that comes first is named: profiling before
/// proofs, proofs to save before proofs to download, and the cluster last.
pub proof fn law_the_first_conflict_is_named(cli: Cli, checked: Result<(), Conflict>)
    requires
        call_ensures(Cli::validate, (&cli,), checked),
        checked is Err,
    ensures
        cli.zisk_profile && !(cli.action is Execute) ==> checked->Err_0
            is ProfileNeedsExecute,
        cli.zisk_profile && (cli.zkvms@.len() != 1 || !(cli.zkvms@[0].kind is Zisk))
            ==> checked->Err_0 is ProfileNeedsExecute || checked->Err_0 is ProfileNeedsZisk,
        checked->Err_0 is ProofsUrlNeedsVerify ==> cli.save_proofs is None || cli.action is Prove,
        checked->Err_0 is EndpointNeedsCluster ==> (cli.save_proofs is None || cli.action is Prove)
            && (cli.proofs_url is None || cli.action is Verify),
        checked->Err_0 is ClusterNeedsZisk || checked->Err_0 is ClusterCannotExecute ==> (
        cli.save_proofs is None || cli.action is Prove) && (cli.proofs_url is None || cli.action
            is Verify),
        checked->Err_0 is ClusterCannotExecute ==> forall|i: int|
            0 <= i < cli.zkvms@.len() ==> (#[trigger] cli.zkvms@[i]).kind is Zisk,
{
}

/// The message of a conflict says which option asks for what, and in the case of
/// profiling what was given instead.
pub proof fn law_conflicts_are_told(cli: Cli, conflict: Conflict, message: String)
    requires
        call_ensures(Cli::conflict_message, (&cli, conflict), message),
    ensures
        conflict is ProfileNeedsExecute && cli.action is Execute ==> message@
            == "--zisk-profile requires --action execute, but got "@ + "Execute"@,
        conflict is ProfileNeedsExecute && cli.action is Prove ==> message@
            == "--zisk-profile requires --action execute, but got "@ + "Prove"@,
        conflict is ProfileNeedsExecute && cli.action is Verify ==> message@
            == "--zisk-profile requires --action execute, but got "@ + "Verify"@,
        conflict is SaveProofsNeedsProve ==> message@
            == "--save-proofs is only valid with --action prove"@,
        conflict is ProofsUrlNeedsVerify ==> message@
            == "--proofs-url is only valid with --action verify"@,
        conflict is EndpointNeedsCluster ==> message@
            == "--cluster-endpoint is only valid with --resource cluster"@,
        conflict is ClusterNeedsZisk ==> message@
            == "--resource cluster is only implemented for --zkvms zisk"@,
        conflict is ClusterCannotExecute ==> message@
            == "--resource cluster is not implemented for --action execute"@,
{
}

/// Where profiling asks for Zisk alone, the message lists the zkVMs that were
/// selected: with one zkVM more, its identifier comes behind a comma and a space.
pub proof fn law_selected_zkvms_are_listed(
    fewer: Cli,
    more: Cli,
    added: ZkVM,
    message_of_fewer: String,
    message_of_more: String,
)
    requires
        call_ensures(
            Cli::conflict_message,
            (&fewer, Conflict::ProfileNeedsZisk),
            message_of_fewer,
        ),
        call_ensures(Cli::conflict_message, (&more, Conflict::ProfileNeedsZisk), message_of_more),
        more.zkvms@ == fewer.zkvms@.push(added),
    ensures
        fewer.zkvms@.len() == 0 ==> message_of_fewer@
            == "--zisk-profile requires --zkvms zisk only, but got: "@,
        fewer.zkvms@.len() == 0 ==> message_of_more@ == message_of_fewer@ + added.id@,
        fewer.zkvms@.len() > 0 ==> message_of_more@ == message_of_fewer@ + ", "@ + added.id@,
{
    let ids_of_fewer = zkvm_ids(fewer.zkvms@);
    let ids_of_more = zkvm_ids(more.zkvms@);
    let head = "--zisk-profile requires --zkvms zisk only, but got: "@;
    assert(ids_of_more.drop_last() =~= ids_of_fewer);
    assert(ids_of_more.last() == added.id@);
    if fewer.zkvms@.len() == 0 {
        assert(head + Seq::<char>::empty() =~= head);
    } else {
        assert(message_of_more@ =~= message_of_fewer@ + ", "@ + added.id@);
    }
}

/// The runner is asked for the selected action.
pub proof fn law_the_selected_action_is_run(chosen: BenchmarkAction, action: Action)
    requires
        call_ensures(<Action as From<BenchmarkAction>>::from, (chosen,), action),
    ensures
        action is Execute <==> chosen is Execute,
        action is Prove <==> chosen is Prove,
        action is Verify <==> chosen is Verify,
{
}

/// The validator that runs is the one of the selected client.
pub proof fn law_the_selected_client_is_run(
    chosen: ExecutionClient,
    client: stateless_validator::ExecutionClient,
)
    requires
        call_ensures(
            <stateless_validator::ExecutionClient as From<ExecutionClient>>::from,
            (chosen,),
            client,
        ),
    ensures
        client is Reth <==> chosen is Reth,
        client is Ethrex <==> chosen is Ethrex,
{
}

/// A client goes by its name in lower case, and its guest lies below the folder
/// of the stateless validators under that name.
pub proof fn law_clients_go_by_their_name(
    chosen: ExecutionClient,
    client: stateless_validator::ExecutionClient,
    name: &'static str,
    path: String,
    prefix: String,
)
    requires
        call_ensures(
            <stateless_validator::ExecutionClient as From<ExecutionClient>>::from,
            (chosen,),
            client,
        ),
        call_ensures(stateless_validator::ExecutionClient::lower_name, (&client,), name),
        call_ensures(ExecutionClient::guest_rel_path, (&chosen,), path),
        call_ensures(el_guest_name_prefix, (name,), prefix),
    ensures
        chosen is Reth ==> name@ == "reth"@,
        chosen is Ethrex ==> name@ == "ethrex"@,
        chosen is Reth ==> path@ == "stateless-validator/reth"@,
        chosen is Ethrex ==> path@ == "stateless-validator/ethrex"@,
        chosen is Reth ==> prefix@ == "stateless-validator-reth"@,
        chosen is Ethrex ==> prefix@ == "stateless-validator-ethrex"@,
{
    lemma_prefixes();
}

/// The prefix of a validator's guests is `stateless-validator-` and the client.
pub proof fn law_validator_prefix(el: &str, prefix: String)
    requires
        call_ensures(el_guest_name_prefix, (el,), prefix),
    ensures
        prefix@ == "stateless-validator-"@ + el@,
{
}

proof fn lemma_prefixes()
    ensures
        "stateless-validator-"@ + "reth"@ == "stateless-validator-reth"@,
        "stateless-validator-"@ + "ethrex"@ == "stateless-validator-ethrex"@,
{
    reveal_strlit("stateless-validator-");
    reveal_strlit("reth");
    reveal_strlit("ethrex");
    reveal_strlit("stateless-validator-reth");
    reveal_strlit("stateless-validator-ethrex");
    assert("stateless-validator-"@ + "reth"@ =~= "stateless-validator-reth"@);
    assert("stateless-validator-"@ + "ethrex"@ =~= "stateless-validator-ethrex"@);
}

/// The resource that proofs are made on is the selected one. A cluster is reached
/// at the given endpoint and without a key.
pub proof fn law_the_selected_resource_is_used(cli: Cli, resource: ProverResource)
    requires
        call_ensures(Cli::prover_resource, (&cli,), resource),
    ensures
        resource is Cpu <==> cli.resource is Cpu,
        resource is Gpu <==> cli.resource is Gpu,
        resource is Cluster <==> cli.resource is Cluster,
        !(resource is Network),
        resource matches ProverResource::Cluster(prover) ==> cli.cluster_endpoint is Some
            && prover.endpoint@ == cli.cluster_endpoint->0@ && prover.api_key is None,
{
}

/// Without a given timeout an execution may take five minutes, a proof fifteen
/// minutes and a verification two seconds. A given timeout takes the place of
/// that of the action, and of no other.
pub proof fn law_timeouts_of_a_run(
    action: Action,
    given: Option<Duration>,
    config: DockerizedzkVMConfig,
)
    requires
        call_ensures(build_zkvm_config, (action, given), config),
    ensures
        config.execute_timeout is Some,
        config.prove_timeout is Some,
        config.verify_timeout is Some,
        !(action is Execute) || given is None ==> config.execute_timeout->0.secs == 5 * 60
            && config.execute_timeout->0.nanos == 0,
        !(action is Prove) || given is None ==> config.prove_timeout->0.secs == 15 * 60
            && config.prove_timeout->0.nanos == 0,
        !(action is Verify) || given is None ==> config.verify_timeout->0.secs == 2
            && config.verify_timeout->0.nanos == 0,
        given is Some && action is Execute ==> config.execute_timeout->0 == given->0,
        given is Some && action is Prove ==> config.prove_timeout->0 == given->0,
        given is Some && action is Verify ==> config.verify_timeout->0 == given->0,
{
}

/// Options are planned just where they are accepted. Where they are not, the
/// refusal names the conflict that the check names, in the words that tell of it.
pub proof fn law_plans_are_made_of_accepted_options(
    cli: Cli,
    el_version: &str,
    checked: Result<(), Conflict>,
    plan: Result<BenchmarkPlan, Refusal>,
    message: String,
)
    requires
        call_ensures(Cli::validate, (&cli,), checked),
        call_ensures(Cli::plan, (cli, el_version), plan),
        checked is Err ==> call_ensures(Cli::conflict_message, (&cli, checked->Err_0), message),
    ensures
        plan is Ok <==> checked is Ok,
        plan is Err ==> plan->Err_0.conflict == checked->Err_0,
        plan is Err ==> plan->Err_0.message@ == message@,
{
}

/// Options can be planned, and their resource be built, wherever a selected cluster
/// comes with its endpoint.
pub proof fn law_options_with_their_endpoint_can_be_planned(cli: Cli, el_version: &str)
    requires
        cli.resource is Cluster ==> cli.cluster_endpoint is Some,
    ensures
        call_requires(Cli::plan, (cli, el_version)),
        call_requires(Cli::prover_resource, (&cli,)),
{
}

/// A plan takes over what was selected: the resource, the zkVMs and the path of
/// their binaries, with the timeouts of the selected action.
pub proof fn law_a_plan_takes_over_the_zkvms(
    cli: Cli,
    el_version: &str,
    plan: BenchmarkPlan,
    resource: ProverResource,
    action: Action,
    timeouts: DockerizedzkVMConfig,
)
    requires
        call_ensures(Cli::plan, (cli, el_version), Ok::<BenchmarkPlan, Refusal>(plan)),
        call_ensures(Cli::prover_resource, (&cli,), resource),
        call_ensures(<Action as From<BenchmarkAction>>::from, (cli.action,), action),
        call_ensures(build_zkvm_config, (action, cli.timeout), timeouts),
    ensures
        plan.zkvms == cli.zkvms,
        plan.bin_path == cli.bin_path,
        plan.zkvm_config == timeouts,
        plan.resource is Cpu <==> resource is Cpu,
        plan.resource is Gpu <==> resource is Gpu,
        plan.resource is Cluster <==> resource is Cluster,
        plan.resource is Cluster ==> plan.resource->Cluster_0.endpoint@
            == resource->Cluster_0.endpoint@ && plan.resource->Cluster_0.api_key is None,
{
}

/// A plan runs the selected action, with reports, dumps and saved proofs in the
/// given folders. It profiles just where that is asked for, into the given folder.
pub proof fn law_a_plan_takes_over_the_folders(cli: Cli, el_version: &str, plan: BenchmarkPlan)
    requires
        call_ensures(Cli::plan, (cli, el_version), Ok::<BenchmarkPlan, Refusal>(plan)),
    ensures
        plan.config.action is Execute <==> cli.action is Execute,
        plan.config.action is Prove <==> cli.action is Prove,
        plan.config.action is Verify <==> cli.action is Verify,
        plan.config.force_rerun == cli.force_rerun,
        plan.config.output_folder@ == cli.output_folder@,
        plan.config.dump_inputs_folder == cli.dump_inputs,
        plan.config.save_proofs_folder == cli.save_proofs,
        plan.config.zisk_profile_config is Some <==> cli.zisk_profile,
        cli.zisk_profile ==> plan.config.zisk_profile_config->0.output_folder@
            == cli.zisk_profile_output@,
{
}

/// The proofs to verify come from the given URL, and from the given folder where
/// there is no URL.
pub proof fn law_a_plan_takes_proofs_from_the_url_first(
    cli: Cli,
    el_version: &str,
    plan: BenchmarkPlan,
)
    requires
        call_ensures(Cli::plan, (cli, el_version), Ok::<BenchmarkPlan, Refusal>(plan)),
    ensures
        cli.proofs_url is Some ==> plan.proofs == ProofsSource::Url(cli.proofs_url->0),
        cli.proofs_url is None ==> plan.proofs == ProofsSource::Folder(cli.proofs_folder),
{
}

/// A plan for the stateless validator is of the selected client throughout: the
/// guest programs are those of the client, the results go to the folder of the
/// client and its version, and the fixtures are run by the client's validator.
pub proof fn law_a_plan_is_of_the_selected_client(
    cli: Cli,
    el_version: &str,
    plan: BenchmarkPlan,
    folder: String,
    names: Option<Vec<String>>,
    chosen: ExecutionClient,
)
    requires
        call_ensures(Cli::plan, (cli, el_version), Ok::<BenchmarkPlan, Refusal>(plan)),
        cli.guest_program == (GuestProgramCommand::StatelessValidator {
            input_folder: folder,
            fixture: names,
            execution_client: chosen,
        }),
    ensures
        chosen is Reth ==> plan.guest_name_prefix@ == "stateless-validator-reth"@,
        chosen is Ethrex ==> plan.guest_name_prefix@ == "stateless-validator-ethrex"@,
        plan.config.sub_folder is Some,
        chosen is Reth ==> plan.config.sub_folder->0@ == "reth-"@ + el_version@,
        chosen is Ethrex ==> plan.config.sub_folder->0@ == "ethrex-"@ + el_version@,
        plan.source matches FixtureSource::StatelessValidator { input_folder, fixture, client }
            && input_folder == folder && fixture == names && (client is Reth <==> chosen is Reth)
            && (client is Ethrex <==> chosen is Ethrex),
{
    lemma_prefixes();
    reveal_strlit("reth");
    reveal_strlit("ethrex");
    reveal_strlit("-");
    reveal_strlit("reth-");
    reveal_strlit("ethrex-");
    assert("reth"@ + "-"@ =~= "reth-"@);
    assert("ethrex"@ + "-"@ =~= "ethrex-"@);
}

/// A plan for the external validator names its guest, its release and its
/// fixtures; no version of a client plays a part.
pub proof fn law_a_plan_of_the_external_validator(
    cli: Cli,
    el_version: &str,
    plan: BenchmarkPlan,
    folder: String,
    names: Option<Vec<String>>,
)
    requires
        call_ensures(Cli::plan, (cli, el_version), Ok::<BenchmarkPlan, Refusal>(plan)),
        cli.guest_program == (GuestProgramCommand::ZiskEthClientReth {
            input_folder: folder,
            fixture: names,
        }),
    ensures
        plan.guest_name_prefix@ == "zisk-eth-client-reth"@,
        plan.config.sub_folder is Some,
        plan.config.sub_folder->0@ == "zisk-eth-client-reth-v0.9.0"@,
        plan.source == (FixtureSource::ZiskEthClientReth { input_folder: folder, fixture: names }),
{
}

/// A plan for the empty program names its guest and its one fixture, and its
/// results go to the output folder itself.
pub proof fn law_a_plan_of_the_empty_program(cli: Cli, el_version: &str, plan: BenchmarkPlan)
    requires
        call_ensures(Cli::plan, (cli, el_version), Ok::<BenchmarkPlan, Refusal>(plan)),
        cli.guest_program is EmptyProgram,
    ensures
        plan.guest_name_prefix@ == "empty"@,
        plan.config.sub_folder is None,
        plan.source is EmptyProgram,
{
}

/// Saved proofs are verified under the action of verifying, and fixtures are run
/// under the two others.
pub proof fn law_only_verifying_works_from_disk(action: Action, task: InstanceTask)
    requires
        call_ensures(instance_task, (action,), task),
    ensures
        task is VerifyFromDisk <==> action is Verify,
        task is RunFixtures <==> action is Execute || action is Prove,
{
}

/// A span of whole seconds has nothing on top of them.
pub proof fn law_whole_seconds(secs: u64, span: Duration)
    requires
        call_ensures(Duration::from_secs, (secs,), span),
    ensures
        span.secs == secs,
        span.nanos == 0,
{
}

/// The milliseconds of a span are the most that fit into it.
pub proof fn law_milliseconds_round_down(span: Duration, millis: u128)
    requires
        call_ensures(Duration::as_millis, (&span,), millis),
    ensures
        millis * 1_000_000 <= span.secs * 1_000_000_000 + span.nanos,
        span.secs * 1_000_000_000 + span.nanos < (millis + 1) * 1_000_000,
{
}

/// A span is read as `humantime` reads it, seconds and nanoseconds unchanged, and
/// its error is handed on.
pub proof fn law_spans_are_read_as_written(
    value: &str,
    parsed: Result<Duration, String>,
    checked: Option<Result<Duration, String>>,
    short: bool,
)
    requires
        call_ensures(parse_duration, (value,), parsed),
        call_ensures(parse_short_duration, (value,), checked),
        call_ensures(stays_short, (value,), short),
    ensures
        humantime_duration(value@) is Ok <==> parsed is Ok,
        parsed is Ok ==> parsed->Ok_0.secs == humantime_duration(value@)->Ok_0.0
            && parsed->Ok_0.nanos == humantime_duration(value@)->Ok_0.1,
        parsed is Err ==> parsed->Err_0@ == humantime_duration(value@)->Err_0,
        checked is Some <==> short,
        checked is Some ==> (checked->0 is Ok <==> parsed is Ok),
        checked is Some && parsed is Ok ==> checked->0->Ok_0 == parsed->Ok_0,
        checked is Some && parsed is Err ==> checked->0->Err_0@ == parsed->Err_0@,
{
}

} // verus!
