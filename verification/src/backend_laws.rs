//! How zkVM instances are asked, loaded and made, told from what each function was
//! given and what it gave.

use vstd::prelude::*;
use vstd::string::*;

use crate::duration::Duration;
use crate::guests::{
    guest_downloader, load_compiled, CompiledGuest, DownloadFailure, DownloadSource,
    DownloaderError, LoadCompiled, LoadError, LoadEvent, LoadStage,
};
use crate::instances::{
    get_el_zkvm_instances, get_guest_zkvm_instances, BuildError, BuildEvent, BuildStage,
    InstanceBuild,
};
use crate::plan::el_guest_name_prefix;
use crate::text::path_join;
use crate::zkvm::{
    cluster_prove_output, hex_lower, str_debug, zkVMKind, Backend, DockerizedzkVMConfig, ProveCall,
    ProveOutput, ProverResource, VerifyCall, ZkVM, ZkVMInstance,
};

verus! {

/// A dockerized instance is of the kind that it was set up as and goes by what its
/// zkVM says of itself. A cluster client is of kind Zisk and goes by what its
/// verifier says. Either hands out its own ELF for profiling.
pub proof fn law_an_instance_tells_of_its_backend(
    instance: ZkVMInstance,
    kind: zkVMKind,
    name: &str,
    version: &str,
    elf: Option<&Vec<u8>>,
)
    requires
        call_ensures(ZkVMInstance::zkvm_kind, (&instance,), kind),
        call_ensures(ZkVMInstance::name, (&instance,), name),
        call_ensures(ZkVMInstance::sdk_version, (&instance,), version),
        call_ensures(ZkVMInstance::profiling_elf, (&instance,), elf),
    ensures
        match instance {
            ZkVMInstance::Dockerized { kind: set_up, zkvm, profiling_elf } => {
                &&& kind == set_up
                &&& name@ == zkvm.name@
                &&& version@ == zkvm.sdk_version@
                &&& elf is Some <==> profiling_elf is Some
                &&& elf is Some ==> *elf->0 == profiling_elf->0
            },
            ZkVMInstance::ZiskClusterClient { client, profiling_elf, .. } => {
                &&& kind is Zisk
                &&& name@ == client.name@
                &&& version@ == client.sdk_version@
                &&& elf is Some <==> profiling_elf is Some
                &&& elf is Some ==> *elf->0 == profiling_elf->0
            },
        },
{
}

/// A dockerized instance executes, proves and verifies itself. A cluster client
/// refuses to execute, proves on the cluster within its own timeout, and verifies
/// with its own verifier.
pub proof fn law_calls_go_to_the_backend(
    instance: ZkVMInstance,
    execution: Result<(), String>,
    proving: ProveCall,
    verification: VerifyCall,
)
    requires
        call_ensures(ZkVMInstance::execute, (&instance,), execution),
        call_ensures(ZkVMInstance::prove, (&instance,), proving),
        call_ensures(ZkVMInstance::verify, (&instance,), verification),
    ensures
        instance is Dockerized ==> execution is Ok && proving is Dockerized && verification
            is Dockerized,
        instance is ZiskClusterClient ==> {
            &&& execution is Err
            &&& execution->Err_0@ == "ZiskClusterClient does not support Action::Execute"@
            &&& proving matches ProveCall::Cluster { timeout } && timeout
                == instance->ZiskClusterClient_prove_timeout
            &&& verification is Cluster
        },
{
}

/// Debug output shows which kind of instance it is and its backend's name, SDK
/// version and hexadecimal verifying key, each quoted, and nothing else.
pub proof fn law_debug_output_shows_the_backend(instance: ZkVMInstance, text: String)
    requires
        call_ensures(ZkVMInstance::debug_text, (&instance,), text),
    ensures
        instance matches ZkVMInstance::Dockerized { zkvm, .. } ==> text@ == "Dockerized { zkvm: "@
            + str_debug(zkvm.name@) + ", sdk_version: "@ + str_debug(zkvm.sdk_version@)
            + ", program_vk: "@ + str_debug(hex_lower(zkvm.program_vk@)) + " }"@,
        instance matches ZkVMInstance::ZiskClusterClient { client, .. } ==> text@
            == "ZiskClusterClient { zkvm: "@ + str_debug(client.name@) + ", sdk_version: "@
            + str_debug(client.sdk_version@) + ", program_vk: "@ + str_debug(
            hex_lower(client.program_vk@),
        ) + " }"@,
{
}

/// Each byte is shown in two lower-case hexadecimal digits, the high half first.
pub proof fn law_bytes_are_shown_in_hexadecimal(bytes: Seq<u8>, i: int)
    requires
        0 <= i < bytes.len(),
    ensures
        hex_lower(bytes).len() == 2 * bytes.len(),
        ({
            let high = hex_lower(bytes)[2 * i];
            let low = hex_lower(bytes)[2 * i + 1];
            let value_of_high: int = if '0' <= high <= '9' {
                high as int - '0' as int
            } else {
                high as int - 'a' as int + 10
            };
            let value_of_low: int = if '0' <= low <= '9' {
                low as int - '0' as int
            } else {
                low as int - 'a' as int + 10
            };
            &&& '0' <= high <= '9' || 'a' <= high <= 'f'
            &&& '0' <= low <= '9' || 'a' <= low <= 'f'
            &&& 16 * value_of_high + value_of_low == bytes[i]
        }),
{
    assert((2 * i) % 2 == 0 && (2 * i) / 2 == i);
    assert((2 * i + 1) % 2 == 1 && (2 * i + 1) / 2 == i);
}

/// A cluster's proof is handed on just where its public values were read and it was
/// encoded, with the time that it took. The failure to read the values comes first.
pub proof fn law_a_cluster_proof_is_handed_on(
    public_values: Result<Vec<u8>, String>,
    encoded: Result<Vec<u8>, String>,
    proving_time: Duration,
    output: Result<ProveOutput, String>,
)
    requires
        call_ensures(cluster_prove_output, (public_values, encoded, proving_time), output),
    ensures
        output is Ok <==> public_values is Ok && encoded is Ok,
        output is Ok ==> output->Ok_0.public_values == public_values->Ok_0,
        output is Ok ==> output->Ok_0.proof == encoded->Ok_0,
        output is Ok ==> output->Ok_0.proving_time == proving_time,
        public_values is Err ==> output->Err_0 == public_values->Err_0,
        public_values is Ok && encoded is Err ==> output->Err_0 == encoded->Err_0,
{
}

/// Guest programs that are pinned to a tag come from the release of this tag and
/// need no token. Those that are pinned to a commit need one: `GITHUB_TOKEN` goes
/// before `GH_TOKEN`. Any other kind of pin is not supported.
pub proof fn law_guests_come_from_where_they_are_pinned(
    kind: &str,
    value: &str,
    github_token: Option<String>,
    gh_token: Option<String>,
    source: Result<DownloadSource, DownloaderError>,
)
    requires
        call_ensures(guest_downloader, (kind, value, github_token, gh_token), source),
    ensures
        kind@ == "tag"@ ==> (source matches Ok(DownloadSource::Tag(tag)) && tag@ == value@),
        kind@ == "commit"@ && github_token is Some ==> (source matches Ok(
            DownloadSource::Commit { commit, github_token: used },
        ) && commit@ == value@ && used == github_token->0),
        kind@ == "commit"@ && github_token is None && gh_token is Some ==> (source matches Ok(
            DownloadSource::Commit { commit, github_token: used },
        ) && commit@ == value@ && used == gh_token->0),
        kind@ == "commit"@ && github_token is None && gh_token is None ==> (source matches Err(
            DownloaderError::TokenMissing { commit },
        ) && commit@ == value@),
        kind@ != "tag"@ && kind@ != "commit"@ ==> (source matches Err(
            DownloaderError::Unsupported { kind: told, value: with },
        ) && told@ == kind@ && with@ == value@),
{
    reveal_strlit("tag");
    reveal_strlit("commit");
    assert("tag"@.len() != "commit"@.len());
}

/// The messages of a download name the release or the commit, or the pin that is not
/// supported.
pub proof fn law_failed_downloads_are_told(
    source: DownloadSource,
    source_message: String,
    failure: DownloaderError,
    message: String,
)
    requires
        call_ensures(DownloadSource::failure_message, (&source,), source_message),
        call_ensures(DownloaderError::message, (&failure,), message),
    ensures
        source matches DownloadSource::Tag(tag) ==> source_message@
            == "Failed to create guest program downloader for ere-guests release "@ + tag@,
        source matches DownloadSource::Commit { commit, .. } ==> source_message@
            == "Failed to create guest program downloader for ere-guests commit "@ + commit@,
        failure matches DownloaderError::TokenMissing { commit } ==> message@
            == "GITHUB_TOKEN or GH_TOKEN must be set to download guest artifacts for ere-guests commit "@
            + commit@,
        failure matches DownloaderError::Unsupported { kind, value } ==> message@
            == "Unsupported ere-guests download source `"@ + kind@ + "` with value `"@ + value@
            + "`"@,
{
}

/// A guest is loaded under its name, from its ELF below the given path of binaries,
/// and by a download where no path is given.
pub proof fn law_loading_begins_on_disk_where_asked(
    guest_name: String,
    bin_path: Option<String>,
    load: LoadCompiled,
    name: &str,
)
    requires
        call_ensures(load_compiled, (guest_name, bin_path), load),
        call_ensures(LoadCompiled::guest_name, (&load,), name),
    ensures
        load@.guest_name@ == guest_name@,
        name@ == guest_name@,
        load@.bin_path is Some <==> bin_path is Some,
        bin_path is Some ==> load@.bin_path->0@ == bin_path->0@,
        bin_path is Some ==> (load@.stage matches LoadStage::ReadElf { path } && path@ == path_join(
            bin_path->0@,
            guest_name@ + ".elf"@,
        )),
        bin_path is None ==> load@.stage is Download,
{
}

/// What is shown of a guest being loaded is where it has come to, and it has a
/// result once nothing is left to do.
pub proof fn law_loading_shows_where_it_is(
    load: LoadCompiled,
    stage: &LoadStage,
    result: Option<Result<CompiledGuest, LoadError>>,
)
    requires
        call_ensures(LoadCompiled::stage, (&load,), stage),
        call_ensures(LoadCompiled::into_result, (load,), result),
    ensures
        *stage == load@.stage,
        result is Some <==> load@.stage is Finished,
        load@.stage matches LoadStage::Finished { result: ended } ==> result == Some(ended),
{
}

/// Every stage of loading takes the answer to what it asks for.
pub proof fn law_every_answer_to_loading_is_taken(load: LoadCompiled, event: LoadEvent)
    requires
        match event {
            LoadEvent::Read(_) => load@.stage is ReadElf || load@.stage is ReadVk || load@.stage
                is ReadProfilingElf,
            LoadEvent::Downloaded(_) => load@.stage is Download,
        },
    ensures
        call_requires(LoadCompiled::step, (load, event)),
{
}

/// From disk a guest's ELF is read, then its verifying key, then its profiling ELF,
/// each from its own file below the same path; all that was read is kept. Without
/// the first or the second there is no guest, and the failure names the path.
/// Without the third there is a guest that cannot be profiled.
pub proof fn law_a_guest_is_read_file_by_file(
    load: LoadCompiled,
    answer: Result<Vec<u8>, String>,
    next: LoadCompiled,
)
    requires
        call_ensures(LoadCompiled::step, (load, LoadEvent::Read(answer)), next),
    ensures
        next@.guest_name@ == load@.guest_name@,
        next@.bin_path is Some <==> load@.bin_path is Some,
        load@.bin_path is Some ==> next@.bin_path->0@ == load@.bin_path->0@,
        ({
            let folder = load@.bin_path->0@;
            let name = load@.guest_name@;
            match load@.stage {
                LoadStage::ReadElf { .. } => if answer is Ok {
                    next@.stage matches LoadStage::ReadVk { path, elf } && path@ == path_join(
                        folder,
                        name + ".vk"@,
                    ) && elf == answer->Ok_0
                } else {
                    next@.stage matches LoadStage::Finished {
                        result: Err(LoadError::ReadElf { bin_path, error }),
                    } && bin_path@ == folder && error == answer->Err_0
                },
                LoadStage::ReadVk { elf: kept, .. } => if answer is Ok {
                    next@.stage matches LoadStage::ReadProfilingElf { path, elf, program_vk }
                        && path@ == path_join(folder, name + "-profiling.elf"@) && elf == kept
                        && program_vk == answer->Ok_0
                } else {
                    next@.stage matches LoadStage::Finished {
                        result: Err(LoadError::ReadVk { bin_path, error }),
                    } && bin_path@ == folder && error == answer->Err_0
                },
                LoadStage::ReadProfilingElf { elf, program_vk, .. } =>
                    next@.stage matches LoadStage::Finished { result: Ok(guest) } && guest.elf
                    == elf && guest.program_vk == program_vk && (guest.profiling_elf is Some
                    <==> answer is Ok) && (answer is Ok ==> guest.profiling_elf->0
                    == answer->Ok_0),
                _ => false,
            }
        }),
{
}

/// A downloaded guest is the one that is loaded. A failure to get a downloader is
/// handed on as it is; one to download names the guest.
pub proof fn law_a_downloaded_guest_is_taken(
    load: LoadCompiled,
    answer: Result<CompiledGuest, DownloadFailure>,
    next: LoadCompiled,
)
    requires
        call_ensures(LoadCompiled::step, (load, LoadEvent::Downloaded(answer)), next),
    ensures
        next@.guest_name@ == load@.guest_name@,
        load@.stage is Download,
        answer is Ok ==> next@.stage == (LoadStage::Finished { result: Ok(answer->Ok_0) }),
        answer matches Err(DownloadFailure::Downloader(error)) ==> next@.stage
            == (LoadStage::Finished { result: Err(LoadError::Downloader(error)) }),
        answer matches Err(DownloadFailure::Guest(cause)) ==> (
        next@.stage matches LoadStage::Finished {
            result: Err(LoadError::Download { guest_name, error }),
        } && guest_name@ == load@.guest_name@ && error == cause),
{
}

/// The messages of loading and of making say what failed, and name the path, the
/// guest or the zkVM.
pub proof fn law_failed_builds_are_told(
    load_failure: LoadError,
    load_message: String,
    failure: BuildError,
    message: String,
    cause: String,
)
    requires
        call_ensures(LoadError::message, (&load_failure,), load_message),
        call_ensures(BuildError::message, (&failure,), message),
        failure matches BuildError::Load(error) ==> call_ensures(
            LoadError::message,
            (&error,),
            cause,
        ),
    ensures
        load_failure matches LoadError::ReadElf { bin_path, .. } ==> load_message@
            == "Failed to read ELF from path: "@ + bin_path@,
        load_failure matches LoadError::ReadVk { bin_path, .. } ==> load_message@
            == "Failed to read program vk from path: "@ + bin_path@,
        load_failure matches LoadError::Downloader(error) ==> load_message@ == error@,
        load_failure matches LoadError::Download { guest_name, .. } ==> load_message@
            == "Failed to download guest program: "@ + guest_name@,
        failure is Load ==> message@ == cause@,
        failure matches BuildError::InitDockerized { id, .. } ==> message@
            == "Failed to initialize DockerizedzkVM, kind "@ + id@,
        failure matches BuildError::Connect(error) ==> message@
            == "Failed to connect to Zisk cluster: "@ + error@,
        failure matches BuildError::ClusterNotZisk { id } ==> message@
            == "Cluster is only implemented for Zisk, got "@ + id@,
{
}

/// The making of instances takes over the zkVMs, the resource, the timeouts and the
/// path of the binaries. It begins with the guest of the first zkVM, whose name is
/// the prefix, a hyphen and the zkVM; without a zkVM it is over at once.
pub proof fn law_making_begins_with_the_first_zkvm<'a>(
    prefix: &str,
    zkvms: &'a Vec<ZkVM>,
    resource: &'a ProverResource,
    config: DockerizedzkVMConfig,
    bin_path: Option<&'a String>,
    build: InstanceBuild<'a>,
)
    requires
        call_ensures(
            get_guest_zkvm_instances,
            (prefix, zkvms, resource, config, bin_path),
            build,
        ),
    ensures
        build@.guest_name_prefix@ == prefix@,
        build@.zkvms == zkvms,
        build@.resource == resource,
        build@.zkvm_config == config,
        build@.bin_path == bin_path,
        build@.instances@.len() == 0,
        zkvms@.len() > 0 ==> (build@.stage matches BuildStage::Load { guest_name } && guest_name@
            == prefix@ + "-"@ + zkvms@[0].id@),
        zkvms@.len() == 0 ==> (build@.stage matches BuildStage::Finished { result } && result
            is Ok),
{
}

/// The instances of an execution client are made like those of any guest, under the
/// prefix of the client's stateless validator.
pub proof fn law_making_for_a_client_uses_its_prefix<'a>(
    el: &str,
    prefix: String,
    zkvms: &'a Vec<ZkVM>,
    resource: &'a ProverResource,
    config: DockerizedzkVMConfig,
    bin_path: Option<&'a String>,
    build: InstanceBuild<'a>,
)
    requires
        call_ensures(el_guest_name_prefix, (el,), prefix),
        call_ensures(get_el_zkvm_instances, (el, zkvms, resource, config, bin_path), build),
    ensures
        build@.guest_name_prefix@ == prefix@,
        build@.zkvms == zkvms,
        build@.resource == resource,
        build@.zkvm_config == config,
        build@.bin_path == bin_path,
        build@.instances@.len() == 0,
        zkvms@.len() > 0 ==> (build@.stage matches BuildStage::Load { guest_name } && guest_name@
            == prefix@ + "-"@ + zkvms@[0].id@),
        zkvms@.len() == 0 ==> (build@.stage matches BuildStage::Finished { result } && result
            is Ok),
{
}

/// What is shown of the making is where it has come to, with the resource and the
/// timeouts that it was begun with.
pub proof fn law_making_shows_where_it_is<'a>(
    build: InstanceBuild<'a>,
    stage: &BuildStage,
    resource: &'a ProverResource,
    config: DockerizedzkVMConfig,
)
    requires
        call_ensures(InstanceBuild::stage, (&build,), stage),
        call_ensures(InstanceBuild::resource, (&build,), resource),
        call_ensures(InstanceBuild::zkvm_config, (&build,), config),
    ensures
        *stage == build@.stage,
        resource == build@.resource,
        config == build@.zkvm_config,
{
}

/// The zkVM in hand is the first one that has no instance yet.
pub proof fn law_the_zkvm_in_hand_has_no_instance_yet<'a>(build: InstanceBuild<'a>, zkvm: &'a ZkVM)
    requires
        call_ensures(InstanceBuild::current_zkvm, (&build,), zkvm),
    ensures
        *zkvm == build@.zkvms@[build@.instances@.len() as int],
{
}

/// The guest that the making asks for is loaded under this name, with the path of
/// the binaries that the making was begun with.
pub proof fn law_making_loads_the_guest_it_asks_for<'a>(
    build: InstanceBuild<'a>,
    load: LoadCompiled,
)
    requires
        call_ensures(InstanceBuild::load, (&build,), load),
    ensures
        build@.stage matches BuildStage::Load { guest_name } && load@.guest_name@ == guest_name@,
        load@.bin_path is Some <==> build@.bin_path is Some,
        build@.bin_path is Some ==> load@.bin_path->0@ == build@.bin_path->0@ && (
        load@.stage matches LoadStage::ReadElf { path } && path@ == path_join(
            build@.bin_path->0@,
            load@.guest_name@ + ".elf"@,
        )),
        build@.bin_path is None ==> load@.stage is Download,
{
}

/// Every stage of the making takes the answer to what it asks for, but for a guest
/// that was loaded for a prover network.
pub proof fn law_every_answer_to_the_making_is_taken<'a>(
    build: InstanceBuild<'a>,
    event: BuildEvent,
)
    requires
        match event {
            BuildEvent::Loaded(answer) => build@.stage is Load && (answer is Ok
                ==> !(build@.resource is Network)),
            BuildEvent::Built(_) => build@.stage is Dockerize || build@.stage is Connect,
        },
    ensures
        call_requires(InstanceBuild::step, (build, event)),
{
}

/// The zkVM in hand can be asked for until the making is over, its guest be loaded
/// where that is next, and the instances be handed out at the end.
pub proof fn law_the_making_can_be_asked_at_every_stage<'a>(build: InstanceBuild<'a>)
    ensures
        !(build@.stage is Finished) ==> call_requires(InstanceBuild::current_zkvm, (&build,)),
        build@.stage is Load ==> call_requires(InstanceBuild::load, (&build,)),
        build@.stage is Finished ==> call_requires(InstanceBuild::into_instances, (build,)),
{
}

/// The zkVMs, the resource, the timeouts, the path and the prefix stay while the
/// instances are made, and what is over is not answered.
pub proof fn law_the_making_is_of_one_guest<'a>(
    build: InstanceBuild<'a>,
    event: BuildEvent,
    next: InstanceBuild<'a>,
)
    requires
        call_ensures(InstanceBuild::step, (build, event), next),
    ensures
        next@.guest_name_prefix == build@.guest_name_prefix,
        next@.zkvms == build@.zkvms,
        next@.resource == build@.resource,
        next@.zkvm_config == build@.zkvm_config,
        next@.bin_path == build@.bin_path,
        !(build@.stage is Finished),
{
}

/// A loaded guest is set up on a local resource in a dockerized zkVM, and on a
/// cluster by connecting to it, which is for Zisk only. Its ELF is handed on; its
/// profiling ELF only where the zkVM is Zisk. No instance is made yet. A guest that
/// could not be loaded ends the making.
pub proof fn law_a_loaded_guest_is_set_up<'a>(
    build: InstanceBuild<'a>,
    answer: Result<CompiledGuest, LoadError>,
    next: InstanceBuild<'a>,
)
    requires
        call_ensures(InstanceBuild::step, (build, BuildEvent::Loaded(answer)), next),
    ensures
        next@.instances@ == build@.instances@,
        answer is Err ==> next@.stage == (BuildStage::Finished {
            result: Err(BuildError::Load(answer->Err_0)),
        }),
        answer is Ok ==> ({
            let index = build@.instances@.len() as int;
            let zkvm = build@.zkvms@[index];
            let guest = answer->Ok_0;
            &&& build@.resource is Cpu || build@.resource is Gpu ==> (
            next@.stage matches BuildStage::Dockerize { zkvm_index, elf, profiling_elf }
                && zkvm_index == index && elf == guest.elf && (zkvm.kind is Zisk ==> profiling_elf
                == guest.profiling_elf) && (!(zkvm.kind is Zisk) ==> profiling_elf is None))
            &&& build@.resource is Cluster && zkvm.kind is Zisk ==> (
            next@.stage matches BuildStage::Connect { zkvm_index, elf, profiling_elf }
                && zkvm_index == index && elf == guest.elf && profiling_elf == guest.profiling_elf)
            &&& build@.resource is Cluster && !(zkvm.kind is Zisk) ==> (
            next@.stage matches BuildStage::Finished {
                result: Err(BuildError::ClusterNotZisk { id }),
            } && id@ == zkvm.id@)
        }),
{
}

/// A zkVM that was set up becomes the next instance, behind those that are there: of
/// the selected kind where it is dockerized, with the configured prove timeout where
/// it is a cluster client, and with the profiling ELF that it was set up with. Then
/// comes the guest of the next zkVM, or the end where there is none. A zkVM that
/// could not be set up ends the making and adds no instance.
pub proof fn law_a_zkvm_that_was_set_up_becomes_an_instance<'a>(
    build: InstanceBuild<'a>,
    answer: Result<Backend, String>,
    next: InstanceBuild<'a>,
)
    requires
        call_ensures(InstanceBuild::step, (build, BuildEvent::Built(answer)), next),
    ensures
        ({
            let index = build@.instances@.len() as int;
            let zkvm = build@.zkvms@[index];
            let zkvms = build@.zkvms@;
            &&& answer is Err ==> next@.instances@ == build@.instances@
            &&& answer is Err && build@.stage is Dockerize ==> (
            next@.stage matches BuildStage::Finished {
                result: Err(BuildError::InitDockerized { id, error }),
            } && id@ == zkvm.id@ && error == answer->Err_0)
            &&& answer is Err && build@.stage is Connect ==> next@.stage == (BuildStage::Finished {
                result: Err(BuildError::Connect(answer->Err_0)),
            })
            &&& answer is Ok ==> next@.instances@.len() == index + 1
            &&& answer is Ok ==> forall|i: int|
                0 <= i < index ==> #[trigger] next@.instances@[i] == build@.instances@[i]
            &&& answer is Ok ==> match build@.stage {
                BuildStage::Dockerize { profiling_elf, .. } => next@.instances@[index]
                    == (ZkVMInstance::Dockerized {
                    kind: zkvm.kind,
                    zkvm: answer->Ok_0,
                    profiling_elf,
                }),
                BuildStage::Connect { profiling_elf, .. } => next@.instances@[index]
                    == (ZkVMInstance::ZiskClusterClient {
                    client: answer->Ok_0,
                    prove_timeout: build@.zkvm_config.prove_timeout,
                    profiling_elf,
                }),
                _ => false,
            }
            &&& answer is Ok && index + 1 < zkvms.len() ==> (
            next@.stage matches BuildStage::Load { guest_name } && guest_name@
                == build@.guest_name_prefix@ + "-"@ + zkvms[index + 1].id@)
            &&& answer is Ok && index + 1 >= zkvms.len() ==> (
            next@.stage matches BuildStage::Finished { result } && result is Ok)
        }),
{
}

/// A making that is over hands out the instances that it made, one for each zkVM, or
/// why there are none.
pub proof fn law_a_finished_making_hands_out_its_instances<'a>(
    build: InstanceBuild<'a>,
    instances: Result<Vec<ZkVMInstance>, BuildError>,
)
    requires
        call_ensures(InstanceBuild::into_instances, (build,), instances),
        build@.stage is Finished,
    ensures
        build@.stage matches BuildStage::Finished { result: Ok(_) } ==> instances is Ok
            && instances->Ok_0@ == build@.instances@ && instances->Ok_0@.len()
            == build@.zkvms@.len(),
        build@.stage matches BuildStage::Finished { result: Err(error) } ==> instances is Err
            && instances->Err_0 == error,
{
}

} // verus!
