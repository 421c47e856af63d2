//! Configuration of a benchmark run and the places where it puts its files.

use vstd::prelude::*;
use vstd::string::*;

use crate::text::{concat2, concat3, join_path, path_join};
use crate::zkvm::ZkVMInstance;

verus! {

/// Action specifies whether we should prove or execute
#[derive(Debug, Clone, Copy, PartialEq, Eq, Structural)]
pub enum Action {
    /// Generate a proof for the zkVM execution
    Prove,
    /// Only execute the zkVM without proving
    Execute,
    /// Verify proofs loaded from disk
    Verify,
}

/// Configuration of Zisk profiling
#[derive(Debug)]
pub struct ProfileConfig {
    /// Folder where profiles will be stored
    pub output_folder: String,
}

/// Holds the configuration for running benchmarks
#[derive(Debug)]
pub struct RunConfig {
    /// Output folder where benchmark results will be stored
    pub output_folder: String,
    /// Optional subfolder within the output folder
    pub sub_folder: Option<String>,
    /// Action to perform: either proving or executing
    pub action: Action,
    /// Force rerun benchmarks even if output files already exist
    pub force_rerun: bool,
    /// Optional folder to dump input files
    pub dump_inputs_folder: Option<String>,
    /// Optional Zisk profiling configuration
    pub zisk_profile_config: Option<ProfileConfig>,
    /// Optional folder to save proof artifacts for later verification
    pub save_proofs_folder: Option<String>,
}

/// The text of an optional subfolder: empty where there is none.
pub open spec fn sub_folder_text(sub_folder: Option<String>) -> Seq<char> {
    match sub_folder {
        Some(sub_folder) => sub_folder@,
        None => Seq::empty(),
    }
}

/// The subfolder of the configuration, or the empty path.
pub fn sub_folder_or_empty(config: &RunConfig) -> (sub_folder: &str)
    ensures
        sub_folder@ == sub_folder_text(config.sub_folder),
{
    match &config.sub_folder {
        Some(sub_folder) => sub_folder.as_str(),
        None => {
            proof {
                reveal_strlit("");
                assert(""@ =~= Seq::empty());
            }
            ""
        },
    }
}

/// The name under which the results of a zkVM are filed: its own name and the
/// version of its SDK.
pub open spec fn zkvm_file_name(zkvm: &ZkVMInstance) -> Seq<char> {
    zkvm.backend().name@ + "-"@ + zkvm.backend().sdk_version@
}

/// Returns the name under which the results of a zkVM are filed.
pub fn benchmark_zkvm_name(zkvm: &ZkVMInstance) -> (name: String)
    ensures
        name@ == zkvm_file_name(zkvm),
{
    concat3(zkvm.name(), "-", zkvm.sdk_version())
}

/// The folder of the reports of the zkVM that is filed under `zkvm_name`.
pub open spec fn output_dir(config: &RunConfig, zkvm_name: Seq<char>) -> Seq<char> {
    path_join(
        path_join(config.output_folder@, sub_folder_text(config.sub_folder)),
        zkvm_name,
    )
}

/// The file of the report of one fixture.
pub open spec fn output_path(
    config: &RunConfig,
    zkvm_name: Seq<char>,
    fixture_name: Seq<char>,
) -> Seq<char> {
    path_join(output_dir(config, zkvm_name), fixture_name + ".json"@)
}

/// The folder of the reports of the zkVM that is filed under `zkvm_name`.
pub fn benchmark_output_dir_for_name(config: &RunConfig, zkvm_name: &str) -> (dir: String)
    ensures
        dir@ == output_dir(config, zkvm_name@),
{
    let base = join_path(config.output_folder.as_str(), sub_folder_or_empty(config));
    join_path(base.as_str(), zkvm_name)
}

/// The file of the report of one fixture, for the zkVM that is filed under
/// `zkvm_name`.
pub fn benchmark_output_path_for_name(
    config: &RunConfig,
    zkvm_name: &str,
    fixture_name: &str,
) -> (path: String)
    ensures
        path@ == output_path(config, zkvm_name@, fixture_name@),
{
    let dir = benchmark_output_dir_for_name(config, zkvm_name);
    join_path(dir.as_str(), concat2(fixture_name, ".json").as_str())
}

/// Returns the output directory for a given zkVM benchmark run.
pub fn benchmark_output_dir(zkvm: &ZkVMInstance, config: &RunConfig) -> (dir: String)
    ensures
        dir@ == output_dir(config, zkvm_file_name(zkvm)),
{
    benchmark_output_dir_for_name(config, benchmark_zkvm_name(zkvm).as_str())
}

/// Returns the output path for a given fixture within a zkVM benchmark run.
pub fn benchmark_output_path(
    zkvm: &ZkVMInstance,
    config: &RunConfig,
    fixture_name: &str,
) -> (path: String)
    ensures
        path@ == output_path(config, zkvm_file_name(zkvm), fixture_name@),
{
    benchmark_output_path_for_name(config, benchmark_zkvm_name(zkvm).as_str(), fixture_name)
}

/// The directory whose reports spare the fixtures that they are of: none where
/// a rerun is forced.
pub fn existing_output_dir(zkvm: &ZkVMInstance, config: &RunConfig) -> (dir: Option<String>)
    ensures
        match dir {
            Some(dir) => !config.force_rerun && dir@ == output_dir(config, zkvm_file_name(zkvm)),
            None => config.force_rerun,
        },
{
    if config.force_rerun {
        None
    } else {
        Some(benchmark_output_dir(zkvm, config))
    }
}

/// The file that describes the hardware of a run.
pub open spec fn hardware_file(config: &RunConfig) -> Seq<char> {
    path_join(config.output_folder@, "hardware.json"@)
}

/// The file that describes the hardware of a run.
pub fn hardware_path(config: &RunConfig) -> (path: String)
    ensures
        path@ == hardware_file(config),
{
    join_path(config.output_folder.as_str(), "hardware.json")
}

/// The folder that inputs are dumped to. It does not depend on the zkVM, so
/// that all zkVMs share one dump.
pub open spec fn dump_dir(dump_folder: Seq<char>, sub_folder: Seq<char>) -> Seq<char> {
    path_join(dump_folder, sub_folder)
}

/// The file that the input of a fixture is dumped to.
pub open spec fn dump_path(
    dump_folder: Seq<char>,
    sub_folder: Seq<char>,
    fixture_name: Seq<char>,
) -> Seq<char> {
    path_join(dump_dir(dump_folder, sub_folder), fixture_name + ".bin"@)
}

/// The folder that proofs are saved to.
pub open spec fn proof_dir(
    proofs_folder: Seq<char>,
    sub_folder: Seq<char>,
    zkvm_name: Seq<char>,
) -> Seq<char> {
    path_join(path_join(proofs_folder, sub_folder), zkvm_name)
}

/// The file that the proof of a fixture is saved to.
pub open spec fn proof_path(
    proofs_folder: Seq<char>,
    sub_folder: Seq<char>,
    zkvm_name: Seq<char>,
    fixture_name: Seq<char>,
) -> Seq<char> {
    path_join(proof_dir(proofs_folder, sub_folder, zkvm_name), fixture_name + ".proof"@)
}

/// The folder and the file that the input of a fixture is dumped to.
pub fn dump_paths(dump_folder: &str, sub_folder: &str, fixture_name: &str) -> (paths: (
    String,
    String,
))
    ensures
        paths.0@ == dump_dir(dump_folder@, sub_folder@),
        paths.1@ == dump_path(dump_folder@, sub_folder@, fixture_name@),
{
    let dir = join_path(dump_folder, sub_folder);
    let path = join_path(dir.as_str(), concat2(fixture_name, ".bin").as_str());
    (dir, path)
}

/// The folder and the file that the proof of a fixture is saved to.
pub fn proof_paths(
    proofs_folder: &str,
    sub_folder: &str,
    zkvm_name: &str,
    fixture_name: &str,
) -> (paths: (String, String))
    ensures
        paths.0@ == proof_dir(proofs_folder@, sub_folder@, zkvm_name@),
        paths.1@ == proof_path(proofs_folder@, sub_folder@, zkvm_name@, fixture_name@),
{
    let base = join_path(proofs_folder, sub_folder);
    let dir = join_path(base.as_str(), zkvm_name);
    let path = join_path(dir.as_str(), concat2(fixture_name, ".proof").as_str());
    (dir, path)
}

/// What a panic was raised with.
#[derive(Debug)]
pub enum PanicPayload {
    /// A string slice
    Slice(String),
    /// An owned string
    Owned(String),
    /// A value that is no text
    Other,
}

/// The message of a panic: the text that it was raised with, or a stand-in
/// where it was raised with anything else.
pub open spec fn panic_message(payload: PanicPayload) -> Seq<char> {
    match payload {
        PanicPayload::Slice(text) => text@,
        PanicPayload::Owned(text) => text@,
        PanicPayload::Other => "Unknown panic occurred"@,
    }
}

/// Returns the message of a panic.
pub fn get_panic_msg(panic_info: PanicPayload) -> (message: String)
    ensures
        message@ == panic_message(panic_info),
{
    match panic_info {
        PanicPayload::Slice(text) => text,
        PanicPayload::Owned(text) => text,
        PanicPayload::Other => "Unknown panic occurred".to_owned(),
    }
}

/// Whether `part` names a place below the path that it is joined to.
pub open spec fn is_relative(part: Seq<char>) -> bool {
    part.len() == 0 || part[0] != '/'
}

/// Files of one folder that differ in name only by what stands before a suffix
/// are told apart, as long as the names are both relative or both absolute.
proof fn lemma_file_names_injective(
    base: Seq<char>,
    a: Seq<char>,
    b: Seq<char>,
    suffix: Seq<char>,
)
    requires
        suffix.len() > 0,
        suffix[0] != '/',
        path_join(base, a + suffix) == path_join(base, b + suffix),
    ensures
        a == b || is_relative(a) != is_relative(b),
{
    if is_relative(a) == is_relative(b) {
        let head = if !is_relative(a) {
            Seq::empty()
        } else if base.len() == 0 || base.last() == '/' {
            base
        } else {
            base.push('/')
        };
        let whole = path_join(base, a + suffix);
        assert(whole =~= head + a + suffix);
        assert(whole =~= head + b + suffix);
        assert(whole.subrange(head.len() as int, whole.len() - suffix.len()) =~= a);
        assert(whole.subrange(head.len() as int, whole.len() - suffix.len()) =~= b);
    }
}

/// The report of a fixture is filed in the output directory of its zkVM.
pub proof fn law_report_lies_in_output_dir(
    config: &RunConfig,
    zkvm_name: Seq<char>,
    fixture_name: Seq<char>,
)
    requires
        is_relative(fixture_name),
    ensures
        output_dir(config, zkvm_name).is_prefix_of(output_path(config, zkvm_name, fixture_name)),
        (fixture_name + ".json"@).is_suffix_of(output_path(config, zkvm_name, fixture_name)),
{
    reveal_strlit(".json");
    let dir = output_dir(config, zkvm_name);
    let file = fixture_name + ".json"@;
    let path = output_path(config, zkvm_name, fixture_name);
    assert(file[0] != '/');
    assert(path.take(dir.len() as int) =~= dir);
    assert(path.skip(path.len() - file.len()) =~= file);
}

/// Two fixtures of one zkVM share a report only where one of their names is an
/// absolute path and the other is not.
pub proof fn law_reports_do_not_collide(
    config: &RunConfig,
    zkvm_name: Seq<char>,
    a: Seq<char>,
    b: Seq<char>,
)
    requires
        output_path(config, zkvm_name, a) == output_path(config, zkvm_name, b),
    ensures
        a == b || is_relative(a) != is_relative(b),
{
    reveal_strlit(".json");
    lemma_file_names_injective(output_dir(config, zkvm_name), a, b, ".json"@);
}

/// The reports of one fixture on two zkVMs are filed apart, where the zkVMs are
/// filed under different names that do not end in a separator.
pub proof fn law_zkvms_do_not_share_reports(
    config: &RunConfig,
    a: Seq<char>,
    b: Seq<char>,
    fixture_name: Seq<char>,
)
    requires
        is_relative(fixture_name),
        is_relative(a) && a.len() > 0 && a.last() != '/',
        is_relative(b) && b.len() > 0 && b.last() != '/',
        output_path(config, a, fixture_name) == output_path(config, b, fixture_name),
    ensures
        a == b,
{
    reveal_strlit(".json");
    let base = path_join(config.output_folder@, sub_folder_text(config.sub_folder));
    let head = if base.len() == 0 || base.last() == '/' {
        base
    } else {
        base.push('/')
    };
    let file = fixture_name + ".json"@;
    let path = output_path(config, a, fixture_name);
    assert(file[0] != '/');
    assert(output_dir(config, a) =~= head + a);
    assert(output_dir(config, b) =~= head + b);
    assert((head + a).last() == a.last() && (head + b).last() == b.last());
    assert(path =~= (head + a).push('/') + file);
    assert(path =~= (head + b).push('/') + file);
    assert(path.subrange(head.len() as int, path.len() - file.len() - 1) =~= a);
    assert(path.subrange(head.len() as int, path.len() - file.len() - 1) =~= b);
}

/// Two fixtures of one zkVM share a saved proof only where one of their names
/// is an absolute path and the other is not.
pub proof fn law_proofs_do_not_collide(
    folder: Seq<char>,
    sub_folder: Seq<char>,
    zkvm_name: Seq<char>,
    a: Seq<char>,
    b: Seq<char>,
)
    requires
        proof_path(folder, sub_folder, zkvm_name, a) == proof_path(
            folder,
            sub_folder,
            zkvm_name,
            b,
        ),
    ensures
        a == b || is_relative(a) != is_relative(b),
{
    reveal_strlit(".proof");
    lemma_file_names_injective(proof_dir(folder, sub_folder, zkvm_name), a, b, ".proof"@);
}

/// Two fixtures share a dumped input only where one of their names is an
/// absolute path and the other is not.
pub proof fn law_dumps_do_not_collide(
    folder: Seq<char>,
    sub_folder: Seq<char>,
    a: Seq<char>,
    b: Seq<char>,
)
    requires
        dump_path(folder, sub_folder, a) == dump_path(folder, sub_folder, b),
    ensures
        a == b || is_relative(a) != is_relative(b),
{
    reveal_strlit(".bin");
    lemma_file_names_injective(dump_dir(folder, sub_folder), a, b, ".bin"@);
}

} // verus!
