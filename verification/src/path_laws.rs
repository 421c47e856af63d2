//! Where files go, told from what each function was given and what it gave.

use vstd::prelude::*;
use vstd::string::*;

use crate::runner::{
    benchmark_output_dir, benchmark_output_dir_for_name, benchmark_output_path,
    benchmark_output_path_for_name, benchmark_zkvm_name, dump_paths, existing_output_dir,
    get_panic_msg, hardware_path, proof_paths, sub_folder_or_empty, PanicPayload, RunConfig,
};
use crate::text::{concat2, concat3, decimal, join_path, path_join, same_text};
use crate::zkvm::ZkVMInstance;

verus! {

/// A joined path is the absolute part itself, or begins with the base and ends
/// with the part, with one separator between them just where the base lacks it.
pub proof fn law_join_keeps_both_parts(base: &str, part: &str, joined: String)
    requires
        call_ensures(join_path, (base, part), joined),
    ensures
        part@.len() > 0 && part@[0] == '/' ==> joined@ == part@,
        !(part@.len() > 0 && part@[0] == '/') ==> {
            let gap: int = if base@.len() == 0 || base@[base@.len() - 1] == '/' {
                0
            } else {
                1
            };
            &&& joined@.len() == base@.len() + gap + part@.len()
            &&& joined@.take(base@.len() as int) == base@
            &&& joined@.skip(base@.len() + gap) == part@
            &&& gap == 1 ==> joined@[base@.len() as int] == '/'
        },
{
    if !(part@.len() > 0 && part@[0] == '/') {
        let gap: int = if base@.len() == 0 || base@[base@.len() - 1] == '/' {
            0
        } else {
            1
        };
        assert(joined@.take(base@.len() as int) =~= base@);
        assert(joined@.skip(base@.len() + gap) =~= part@);
    }
}

/// The join that contracts speak of is the one that is carried out.
pub proof fn law_join_is_carried_out(base: &str, part: &str, joined: String)
    requires
        call_ensures(join_path, (base, part), joined),
    ensures
        joined@ == path_join(base@, part@),
{
}

/// A text put together from parts has their lengths, and gives each part back
/// from its place.
pub proof fn law_concatenation_keeps_the_parts(
    a: &str,
    b: &str,
    c: &str,
    two: String,
    three: String,
)
    requires
        call_ensures(concat2, (a, b), two),
        call_ensures(concat3, (a, b, c), three),
    ensures
        two@.len() == a@.len() + b@.len(),
        two@.take(a@.len() as int) == a@,
        two@.skip(a@.len() as int) == b@,
        three@.len() == two@.len() + c@.len(),
        three@.take(two@.len() as int) == two@,
        three@.skip(two@.len() as int) == c@,
{
    assert(two@.take(a@.len() as int) =~= a@);
    assert(two@.skip(a@.len() as int) =~= b@);
    assert(three@.take(two@.len() as int) =~= two@);
    assert(three@.skip(two@.len() as int) =~= c@);
}

/// Texts are the same just where they have the same length and the same
/// character at every place.
pub proof fn law_same_text_is_the_same_at_every_place(a: &str, b: &str, same: bool)
    requires
        call_ensures(same_text, (a, b), same),
    ensures
        same <==> a@.len() == b@.len() && forall|i: int| 0 <= i < a@.len() ==> a@[i] == b@[i],
{
    if a@.len() == b@.len() && forall|i: int| 0 <= i < a@.len() ==> a@[i] == b@[i] {
        assert(a@ =~= b@);
    }
}

/// A number is written as its tenth is, with its last digit behind, down to the
/// numbers of one digit.
pub proof fn law_decimal_adds_the_last_digit(value: u64, text: String, tenth: String)
    requires
        call_ensures(decimal, (value,), text),
        call_ensures(decimal, ((value / 10) as u64,), tenth),
    ensures
        text@.len() > 0,
        text@[text@.len() - 1] as int == 48 + value % 10,
        value < 10 ==> text@.len() == 1,
        value >= 10 ==> text@.drop_last() == tenth@,
{
    if value >= 10 {
        assert(text@.drop_last() =~= tenth@);
    }
}

/// The subfolder is the configured one, or the empty path.
pub proof fn law_sub_folder_is_the_configured_one(config: &RunConfig, sub_folder: &str)
    requires
        call_ensures(sub_folder_or_empty, (config,), sub_folder),
    ensures
        config.sub_folder is None ==> sub_folder@.len() == 0,
        config.sub_folder is Some ==> sub_folder@ == config.sub_folder->0@,
{
}

/// Results are filed under the name of the backend, a hyphen and the version of
/// its SDK.
pub proof fn law_results_are_filed_by_name_and_version(zkvm: &ZkVMInstance, name: String)
    requires
        call_ensures(benchmark_zkvm_name, (zkvm,), name),
    ensures
        ({
            let backend = match zkvm {
                ZkVMInstance::Dockerized { zkvm, .. } => *zkvm,
                ZkVMInstance::ZiskClusterClient { client, .. } => *client,
            };
            &&& name@.len() == backend.name@.len() + 1 + backend.sdk_version@.len()
            &&& name@.take(backend.name@.len() as int) == backend.name@
            &&& name@[backend.name@.len() as int] == '-'
            &&& name@.skip(backend.name@.len() + 1int) == backend.sdk_version@
        }),
{
    let backend = match zkvm {
        ZkVMInstance::Dockerized { zkvm, .. } => *zkvm,
        ZkVMInstance::ZiskClusterClient { client, .. } => *client,
    };
    reveal_strlit("-");
    assert(name@.take(backend.name@.len() as int) =~= backend.name@);
    assert(name@.skip(backend.name@.len() + 1int) =~= backend.sdk_version@);
}

/// The folder of a zkVM's reports is its filed name, below the subfolder, below
/// the output folder, whichever way it is asked for.
pub proof fn law_reports_folder(
    zkvm: &ZkVMInstance,
    config: &RunConfig,
    sub_folder: &str,
    name: String,
    dir: String,
    given_name: &str,
    dir_for_name: String,
)
    requires
        call_ensures(sub_folder_or_empty, (config,), sub_folder),
        call_ensures(benchmark_zkvm_name, (zkvm,), name),
        call_ensures(benchmark_output_dir, (zkvm, config), dir),
        call_ensures(benchmark_output_dir_for_name, (config, given_name), dir_for_name),
    ensures
        dir@ == path_join(path_join(config.output_folder@, sub_folder@), name@),
        dir_for_name@ == path_join(path_join(config.output_folder@, sub_folder@), given_name@),
{
}

/// A report is the file of the fixture's name with `.json` behind it, in the
/// folder of the zkVM's reports, whichever way it is asked for.
pub proof fn law_report_files(
    zkvm: &ZkVMInstance,
    config: &RunConfig,
    fixture_name: &str,
    dir: String,
    path: String,
    given_name: &str,
    dir_for_name: String,
    path_for_name: String,
)
    requires
        call_ensures(benchmark_output_dir, (zkvm, config), dir),
        call_ensures(benchmark_output_path, (zkvm, config, fixture_name), path),
        call_ensures(benchmark_output_dir_for_name, (config, given_name), dir_for_name),
        call_ensures(
            benchmark_output_path_for_name,
            (config, given_name, fixture_name),
            path_for_name,
        ),
    ensures
        path@ == path_join(dir@, fixture_name@ + ".json"@),
        path_for_name@ == path_join(dir_for_name@, fixture_name@ + ".json"@),
{
}

/// Reports spare their fixtures just where no rerun is forced, and then those in
/// the folder that reports are written to.
pub proof fn law_reports_spare_unless_forced(
    zkvm: &ZkVMInstance,
    config: &RunConfig,
    dir: String,
    existing: Option<String>,
)
    requires
        call_ensures(benchmark_output_dir, (zkvm, config), dir),
        call_ensures(existing_output_dir, (zkvm, config), existing),
    ensures
        existing is Some <==> !config.force_rerun,
        existing is Some ==> existing->0@ == dir@,
{
}

/// The hardware is described in the output folder itself, whatever the subfolder
/// and the zkVM are.
pub proof fn law_hardware_lies_in_the_output_folder(config: &RunConfig, path: String)
    requires
        call_ensures(hardware_path, (config,), path),
    ensures
        path@ == path_join(config.output_folder@, "hardware.json"@),
{
}

/// An input is dumped to the file of the fixture's name with `.bin` behind it, in
/// the subfolder of the dump folder.
pub proof fn law_dump_files(
    folder: &str,
    sub_folder: &str,
    fixture_name: &str,
    paths: (String, String),
)
    requires
        call_ensures(dump_paths, (folder, sub_folder, fixture_name), paths),
    ensures
        paths.0@ == path_join(folder@, sub_folder@),
        paths.1@ == path_join(paths.0@, fixture_name@ + ".bin"@),
{
}

/// A proof is saved to the file of the fixture's name with `.proof` behind it, in
/// the folder of the zkVM's name below the subfolder of the proofs folder.
pub proof fn law_proof_files(
    folder: &str,
    sub_folder: &str,
    zkvm_name: &str,
    fixture_name: &str,
    paths: (String, String),
)
    requires
        call_ensures(proof_paths, (folder, sub_folder, zkvm_name, fixture_name), paths),
    ensures
        paths.0@ == path_join(path_join(folder@, sub_folder@), zkvm_name@),
        paths.1@ == path_join(paths.0@, fixture_name@ + ".proof"@),
{
}

/// A panic that was raised with text gives just this text, whether the text was
/// borrowed or owned. Any other panic gives one and the same stand-in.
pub proof fn law_panics_give_their_text(payload: PanicPayload, message: String)
    requires
        call_ensures(get_panic_msg, (payload,), message),
    ensures
        payload matches PanicPayload::Slice(text) ==> message@ == text@,
        payload matches PanicPayload::Owned(text) ==> message@ == text@,
        payload is Other ==> message@ == "Unknown panic occurred"@,
{
}

} // verus!
