//! Where compiled guest programs come from.

use vstd::prelude::*;
use vstd::string::*;

use crate::text::{concat2, concat3, join_path, path_join, same_text};

verus! {

/// A compiled guest program.
#[derive(Debug)]
pub struct CompiledGuest {
    /// The ELF of the program
    pub elf: Vec<u8>,
    /// The verifying key of the program
    pub program_vk: Vec<u8>,
    /// The ELF with cycle scopes enabled, where there is one
    pub profiling_elf: Option<Vec<u8>>,
}

/// The source that guest programs are downloaded from.
#[derive(Debug)]
pub enum DownloadSource {
    /// A release
    Tag(String),
    /// The artifacts of a commit
    Commit {
        /// The commit
        commit: String,
        /// The token that authorises the download
        github_token: String,
    },
}

impl DownloadSource {
    /// The text that tells that this source cannot be downloaded from.
    pub open spec fn failure_text(&self) -> Seq<char> {
        match self {
            DownloadSource::Tag(tag) =>
                "Failed to create guest program downloader for ere-guests release "@ + tag@,
            DownloadSource::Commit { commit, .. } =>
                "Failed to create guest program downloader for ere-guests commit "@ + commit@,
        }
    }

    /// Tells that this source cannot be downloaded from.
    pub fn failure_message(&self) -> (message: String)
        ensures
            message@ == self.failure_text(),
    {
        match self {
            DownloadSource::Tag(tag) => concat2(
                "Failed to create guest program downloader for ere-guests release ",
                tag.as_str(),
            ),
            DownloadSource::Commit { commit, .. } => concat2(
                "Failed to create guest program downloader for ere-guests commit ",
                commit.as_str(),
            ),
        }
    }
}

/// Why there is no source to download from.
#[derive(Debug)]
pub enum DownloaderError {
    /// The artifacts of a commit need a token.
    TokenMissing {
        /// The commit
        commit: String,
    },
    /// The kind of source is not known.
    Unsupported {
        /// The kind
        kind: String,
        /// What it was given with
        value: String,
    },
}

impl DownloaderError {
    /// The text of the failure.
    pub open spec fn text(&self) -> Seq<char> {
        match self {
            DownloaderError::TokenMissing { commit } =>
                "GITHUB_TOKEN or GH_TOKEN must be set to download guest artifacts for ere-guests commit "@
                + commit@,
            DownloaderError::Unsupported { kind, value } =>
                "Unsupported ere-guests download source `"@ + kind@ + "` with value `"@ + value@
                + "`"@,
        }
    }

    /// The text of the failure.
    pub fn message(&self) -> (message: String)
        ensures
            message@ == self.text(),
    {
        match self {
            DownloaderError::TokenMissing { commit } => concat2(
                "GITHUB_TOKEN or GH_TOKEN must be set to download guest artifacts for ere-guests commit ",
                commit.as_str(),
            ),
            DownloaderError::Unsupported { kind, value } => {
                let mut message = concat3(
                    "Unsupported ere-guests download source `",
                    kind.as_str(),
                    "` with value `",
                );
                message.append(value.as_str());
                message.append("`");
                message
            },
        }
    }
}

/// The token that authorises a download: `GITHUB_TOKEN` where it is set, else
/// `GH_TOKEN`.
pub open spec fn chosen_token(github_token: Option<String>, gh_token: Option<String>) -> Option<
    String,
> {
    if github_token is Some {
        github_token
    } else {
        gh_token
    }
}

/// Selects the source that guest programs are downloaded from. `kind` is how the
/// release of the guests was pinned and `value` what it was pinned to; the
/// tokens are the values of `GITHUB_TOKEN` and `GH_TOKEN`.
pub fn guest_downloader(
    kind: &str,
    value: &str,
    github_token: Option<String>,
    gh_token: Option<String>,
) -> (source: Result<DownloadSource, DownloaderError>)
    ensures
        if kind@ == "tag"@ {
            source matches Ok(DownloadSource::Tag(tag)) && tag@ == value@
        } else if kind@ == "commit"@ {
            match chosen_token(github_token, gh_token) {
                Some(token) => source matches Ok(
                    DownloadSource::Commit { commit, github_token: used },
                ) && commit@ == value@ && used == token,
                None => source matches Err(DownloaderError::TokenMissing { commit }) && commit@
                    == value@,
            }
        } else {
            source matches Err(DownloaderError::Unsupported { kind: k, value: v }) && k@ == kind@
                && v@ == value@
        },
{
    if same_text(kind, "tag") {
        return Ok(DownloadSource::Tag(value.to_owned()));
    }
    if same_text(kind, "commit") {
        let token = match github_token {
            Some(token) => Some(token),
            None => gh_token,
        };
        return match token {
            Some(github_token) => Ok(
                DownloadSource::Commit { commit: value.to_owned(), github_token },
            ),
            None => Err(DownloaderError::TokenMissing { commit: value.to_owned() }),
        };
    }
    Err(DownloaderError::Unsupported { kind: kind.to_owned(), value: value.to_owned() })
}

/// Why a download failed.
#[derive(Debug)]
pub enum DownloadFailure {
    /// There is no downloader, for this reason.
    Downloader(String),
    /// The guest program could not be downloaded, for this reason.
    Guest(String),
}

/// Why a compiled guest could not be loaded.
#[derive(Debug)]
pub enum LoadError {
    /// Its ELF could not be read.
    ReadElf {
        /// The base path of the binaries
        bin_path: String,
        /// The cause
        error: String,
    },
    /// Its verifying key could not be read.
    ReadVk {
        /// The base path of the binaries
        bin_path: String,
        /// The cause
        error: String,
    },
    /// There is no downloader.
    Downloader(String),
    /// It could not be downloaded.
    Download {
        /// The guest program
        guest_name: String,
        /// The cause
        error: String,
    },
}

impl LoadError {
    /// The text of the failure.
    pub open spec fn text(&self) -> Seq<char> {
        match self {
            LoadError::ReadElf { bin_path, .. } => "Failed to read ELF from path: "@ + bin_path@,
            LoadError::ReadVk { bin_path, .. } => "Failed to read program vk from path: "@
                + bin_path@,
            LoadError::Downloader(error) => error@,
            LoadError::Download { guest_name, .. } => "Failed to download guest program: "@
                + guest_name@,
        }
    }

    /// The text of the failure.
    pub fn message(&self) -> (message: String)
        ensures
            message@ == self.text(),
    {
        match self {
            LoadError::ReadElf { bin_path, .. } => concat2(
                "Failed to read ELF from path: ",
                bin_path.as_str(),
            ),
            LoadError::ReadVk { bin_path, .. } => concat2(
                "Failed to read program vk from path: ",
                bin_path.as_str(),
            ),
            LoadError::Downloader(error) => error.clone(),
            LoadError::Download { guest_name, .. } => concat2(
                "Failed to download guest program: ",
                guest_name.as_str(),
            ),
        }
    }
}

/// What is to be done next to load a compiled guest.
#[derive(Debug)]
pub enum LoadStage {
    /// Read the ELF from `path`.
    ReadElf {
        /// The file
        path: String,
    },
    /// Read the verifying key from `path`.
    ReadVk {
        /// The file
        path: String,
        /// The ELF
        elf: Vec<u8>,
    },
    /// Read the profiling ELF from `path`.
    ReadProfilingElf {
        /// The file
        path: String,
        /// The ELF
        elf: Vec<u8>,
        /// The verifying key
        program_vk: Vec<u8>,
    },
    /// Download the guest program.
    Download,
    /// Nothing is left to do.
    Finished {
        /// How loading ended
        result: Result<CompiledGuest, LoadError>,
    },
}

/// The answer to what a stage of loading asks for.
#[derive(Debug)]
pub enum LoadEvent {
    /// The contents of the file.
    Read(Result<Vec<u8>, String>),
    /// The guest program.
    Downloaded(Result<CompiledGuest, DownloadFailure>),
}

impl LoadStage {
    /// Whether `event` answers what this stage asks for.
    pub open spec fn accepts(&self, event: LoadEvent) -> bool {
        match self {
            LoadStage::ReadElf { .. }
            | LoadStage::ReadVk { .. }
            | LoadStage::ReadProfilingElf { .. } => event is Read,
            LoadStage::Download => event is Downloaded,
            LoadStage::Finished { .. } => false,
        }
    }
}

/// The text, where there is one.
pub open spec fn optional_text(text: Option<String>) -> Option<Seq<char>> {
    match text {
        Some(text) => Some(text@),
        None => None,
    }
}

/// How far the loading of a compiled guest has come.
pub struct LoadState {
    /// The guest program
    pub guest_name: String,
    /// The base path of pre-compiled binaries
    pub bin_path: Option<String>,
    /// What is to be done next
    pub stage: LoadStage,
}

/// The file of a guest program's ELF.
pub open spec fn elf_path(bin_path: Seq<char>, guest_name: Seq<char>) -> Seq<char> {
    path_join(bin_path, guest_name + ".elf"@)
}

/// The file of a guest program's verifying key.
pub open spec fn vk_path(bin_path: Seq<char>, guest_name: Seq<char>) -> Seq<char> {
    path_join(bin_path, guest_name + ".vk"@)
}

/// The file of a guest program's profiling ELF.
pub open spec fn profiling_elf_path(bin_path: Seq<char>, guest_name: Seq<char>) -> Seq<char> {
    path_join(bin_path, guest_name + "-profiling.elf"@)
}

impl LoadState {
    /// Whether `stage` comes first: the binaries on disk where their path is
    /// given, a download otherwise.
    pub open spec fn first(&self, stage: LoadStage) -> bool {
        match self.bin_path {
            Some(bin_path) => stage matches LoadStage::ReadElf { path } && path@ == elf_path(
                bin_path@,
                self.guest_name@,
            ),
            None => stage is Download,
        }
    }

    /// Whether the loading of this guest is at its beginning.
    pub open spec fn starts(&self, guest_name: Seq<char>, bin_path: Option<Seq<char>>) -> bool {
        self.guest_name@ == guest_name && optional_text(self.bin_path) == bin_path && self.first(
            self.stage,
        )
    }

    /// Whether binaries are read only where their path is given.
    pub open spec fn well_formed(&self) -> bool {
        self.stage is ReadElf || self.stage is ReadVk || self.stage is ReadProfilingElf
            ==> self.bin_path is Some
    }

    /// Whether `stage` comes when `event` has answered the current stage. The
    /// profiling ELF is optional.
    pub open spec fn leads_to(&self, event: LoadEvent, stage: LoadStage) -> bool {
        match (self.stage, event) {
            (LoadStage::ReadElf { .. }, LoadEvent::Read(Ok(bytes))) => stage matches LoadStage::ReadVk {
                path,
                elf,
            } && path@ == vk_path(self.bin_path->0@, self.guest_name@) && elf == bytes,
            (LoadStage::ReadElf { .. }, LoadEvent::Read(Err(cause))) =>
                stage matches LoadStage::Finished {
                result: Err(LoadError::ReadElf { bin_path, error }),
            } && bin_path@ == self.bin_path->0@ && error == cause,
            (LoadStage::ReadVk { elf: kept, .. }, LoadEvent::Read(Ok(bytes))) =>
                stage matches LoadStage::ReadProfilingElf { path, elf, program_vk } && path@
                == profiling_elf_path(self.bin_path->0@, self.guest_name@) && elf == kept
                && program_vk == bytes,
            (LoadStage::ReadVk { .. }, LoadEvent::Read(Err(cause))) =>
                stage matches LoadStage::Finished {
                result: Err(LoadError::ReadVk { bin_path, error }),
            } && bin_path@ == self.bin_path->0@ && error == cause,
            (
                LoadStage::ReadProfilingElf { elf, program_vk, .. },
                LoadEvent::Read(answer),
            ) => stage == (LoadStage::Finished {
                result: Ok(
                    CompiledGuest {
                        elf,
                        program_vk,
                        profiling_elf: match answer {
                            Ok(bytes) => Some(bytes),
                            Err(_) => None,
                        },
                    },
                ),
            }),
            (LoadStage::Download, LoadEvent::Downloaded(answer)) => match answer {
                Ok(guest) => stage == (LoadStage::Finished { result: Ok(guest) }),
                Err(DownloadFailure::Downloader(error)) => stage == (LoadStage::Finished {
                    result: Err(LoadError::Downloader(error)),
                }),
                Err(DownloadFailure::Guest(cause)) => stage matches LoadStage::Finished {
                    result: Err(LoadError::Download { guest_name, error }),
                } && guest_name@ == self.guest_name@ && error == cause,
            },
            _ => false,
        }
    }

    /// Whether `next` is this guest, one answered stage later.
    pub open spec fn steps_to(&self, event: LoadEvent, next: LoadState) -> bool {
        self.stage.accepts(event) && next.guest_name@ == self.guest_name@ && match self.bin_path {
            Some(bin_path) => next.bin_path is Some && next.bin_path->0@ == bin_path@,
            None => next.bin_path is None,
        } && self.leads_to(event, next.stage)
    }
}

/// A compiled guest on its way from disk or from a download.
pub struct LoadCompiled {
    state: LoadState,
}

impl View for LoadCompiled {
    type V = LoadState;

    closed spec fn view(&self) -> LoadState {
        self.state
    }
}

impl LoadCompiled {
    #[verifier::type_invariant]
    spec fn keeps_order(self) -> bool {
        self.state.well_formed()
    }

    /// What is to be done next.
    pub fn stage(&self) -> (stage: &LoadStage)
        ensures
            *stage == self@.stage,
    {
        &self.state.stage
    }

    /// The guest program that is loaded.
    pub fn guest_name(&self) -> (name: &str)
        ensures
            name@ == self@.guest_name@,
    {
        self.state.guest_name.as_str()
    }

    /// How loading ended, once it has.
    pub fn into_result(self) -> (result: Option<Result<CompiledGuest, LoadError>>)
        ensures
            result == match self@.stage {
                LoadStage::Finished { result } => Some(result),
                _ => None,
            },
    {
        match self.state.stage {
            LoadStage::Finished { result } => Some(result),
            _ => None,
        }
    }

    /// Moves on with the answer to what the current stage asks for.
    pub fn step(self, event: LoadEvent) -> (next: LoadCompiled)
        requires
            self@.stage.accepts(event),
        ensures
            self@.steps_to(event, next@),
    {
        proof {
            use_type_invariant(&self);
        }
        let LoadState { guest_name, bin_path, stage } = self.state;
        let folder = match &bin_path {
            Some(folder) => folder.clone(),
            None => String::new(),
        };
        let stage = match (stage, event) {
            (LoadStage::ReadElf { .. }, LoadEvent::Read(answer)) => match answer {
                Ok(elf) => LoadStage::ReadVk {
                    path: join_path(
                        folder.as_str(),
                        concat2(guest_name.as_str(), ".vk").as_str(),
                    ),
                    elf,
                },
                Err(error) => LoadStage::Finished {
                    result: Err(LoadError::ReadElf { bin_path: folder, error }),
                },
            },
            (LoadStage::ReadVk { elf, .. }, LoadEvent::Read(answer)) => match answer {
                Ok(program_vk) => LoadStage::ReadProfilingElf {
                    path: join_path(
                        folder.as_str(),
                        concat2(guest_name.as_str(), "-profiling.elf").as_str(),
                    ),
                    elf,
                    program_vk,
                },
                Err(error) => LoadStage::Finished {
                    result: Err(LoadError::ReadVk { bin_path: folder, error }),
                },
            },
            (LoadStage::ReadProfilingElf { elf, program_vk, .. }, LoadEvent::Read(answer)) => {
                let profiling_elf = match answer {
                    Ok(bytes) => Some(bytes),
                    Err(_) => None,
                };
                LoadStage::Finished { result: Ok(CompiledGuest { elf, program_vk, profiling_elf }) }
            },
            (LoadStage::Download, LoadEvent::Downloaded(answer)) => match answer {
                Ok(guest) => LoadStage::Finished { result: Ok(guest) },
                Err(DownloadFailure::Downloader(error)) => LoadStage::Finished {
                    result: Err(LoadError::Downloader(error)),
                },
                Err(DownloadFailure::Guest(error)) => LoadStage::Finished {
                    result: Err(LoadError::Download { guest_name: guest_name.clone(), error }),
                },
            },
            (stage, _) => stage,
        };
        LoadCompiled { state: LoadState { guest_name, bin_path, stage } }
    }
}

/// Starts loading a compiled guest: from the binaries on disk where their path
/// is given, by a download otherwise.
pub fn load_compiled(guest_name: String, bin_path: Option<String>) -> (load: LoadCompiled)
    ensures
        load@.starts(guest_name@, optional_text(bin_path)),
{
    let stage = match &bin_path {
        Some(folder) => LoadStage::ReadElf {
            path: join_path(folder.as_str(), concat2(guest_name.as_str(), ".elf").as_str()),
        },
        None => LoadStage::Download,
    };
    LoadCompiled { state: LoadState { guest_name, bin_path, stage } }
}

/// Whether loading went through the states `states`, each answered by the event
/// at the same place, from the beginning.
pub open spec fn load_trace(states: Seq<LoadState>, events: Seq<LoadEvent>) -> bool {
    &&& states.len() == events.len() + 1
    &&& states[0].first(states[0].stage)
    &&& forall|i: int|
        0 <= i < events.len() ==> (#[trigger] states[i]).steps_to(events[i], states[i + 1])
}

/// How many stages of loading can come after this one at most.
pub open spec fn load_stages_left(stage: LoadStage) -> nat {
    match stage {
        LoadStage::ReadElf { .. } => 3,
        LoadStage::ReadVk { .. } => 2,
        LoadStage::ReadProfilingElf { .. } => 1,
        LoadStage::Download => 1,
        LoadStage::Finished { .. } => 0,
    }
}

proof fn lemma_load_trace(states: Seq<LoadState>, events: Seq<LoadEvent>, i: int)
    requires
        load_trace(states, events),
        0 <= i < states.len(),
    ensures
        states[i].well_formed(),
        states[i].bin_path is Some <==> states[0].bin_path is Some,
        states[i].stage is Download ==> states[0].bin_path is None,
        load_stages_left(states[i].stage) + i <= 3,
    decreases i,
{
    if i > 0 {
        lemma_load_trace(states, events, i - 1);
        assert(states[i - 1].steps_to(events[i - 1], states[i]));
    }
}

/// Loading comes to an end after at most three answered stages.
pub proof fn law_loading_ends(states: Seq<LoadState>, events: Seq<LoadEvent>)
    requires
        load_trace(states, events),
    ensures
        events.len() <= 3,
        events.len() == 3 ==> states.last().stage is Finished,
{
    lemma_load_trace(states, events, events.len() as int);
}

/// Binaries whose path is given are never downloaded, and without a path
/// nothing is read from disk.
pub proof fn law_binaries_on_disk_are_not_downloaded(
    states: Seq<LoadState>,
    events: Seq<LoadEvent>,
    i: int,
)
    requires
        load_trace(states, events),
        0 <= i < states.len(),
    ensures
        states[0].bin_path is Some ==> !(states[i].stage is Download),
        states[0].bin_path is None ==> !(states[i].stage is ReadElf || states[i].stage is ReadVk
            || states[i].stage is ReadProfilingElf),
{
    lemma_load_trace(states, events, i);
}

/// A guest without a profiling ELF is loaded all the same.
pub proof fn law_profiling_elf_is_optional(load: LoadState, error: String, next: LoadState)
    requires
        load.stage is ReadProfilingElf,
        load.steps_to(LoadEvent::Read(Err(error)), next),
    ensures
        next.stage matches LoadStage::Finished { result: Ok(guest) } && guest.profiling_elf is None
            && guest.elf == load.stage->ReadProfilingElf_elf && guest.program_vk
            == load.stage->program_vk,
{
}

/// What was read from disk is what the loaded guest consists of: first its ELF,
/// then its verifying key, then its profiling ELF.
pub proof fn law_guest_consists_of_what_was_read(
    states: Seq<LoadState>,
    events: Seq<LoadEvent>,
    elf: Vec<u8>,
    program_vk: Vec<u8>,
    profiling_elf: Vec<u8>,
)
    requires
        load_trace(states, events),
        states[0].bin_path is Some,
        events == seq![
            LoadEvent::Read(Ok(elf)),
            LoadEvent::Read(Ok(program_vk)),
            LoadEvent::Read(Ok(profiling_elf)),
        ],
    ensures
        states.last().stage == (LoadStage::Finished {
            result: Ok(CompiledGuest { elf, program_vk, profiling_elf: Some(profiling_elf) }),
        }),
{
    assert(states[0].steps_to(events[0], states[1]));
    assert(states[1].steps_to(events[1], states[2]));
    assert(states[2].steps_to(events[2], states[3]));
}

} // verus!
