//! The zkVM instances that a benchmark runs on, made one after the other.

use vstd::prelude::*;
use vstd::string::*;

use crate::cli::Cli;
use crate::guests::{load_compiled, CompiledGuest, LoadCompiled, LoadError, LoadStage, LoadState};
use crate::plan::{
    el_guest_name_prefix, el_prefix, law_cluster_means_zisk_without_execution, BenchmarkPlan,
};
use crate::runner::Action;
use crate::text::{concat2, concat3, path_join};
use crate::zkvm::{
    zkVMKind, Backend, DockerizedzkVMConfig, ProverResource, ZkVM, ZkVMInstance,
};

verus! {

/// Why the instances could not be made.
#[derive(Debug)]
pub enum BuildError {
    /// A guest program could not be loaded.
    Load(LoadError),
    /// A dockerized zkVM could not be set up.
    InitDockerized {
        /// The zkVM
        id: String,
        /// The cause
        error: String,
    },
    /// The cluster could not be connected to.
    Connect(String),
    /// The cluster does not run this zkVM.
    ClusterNotZisk {
        /// The zkVM
        id: String,
    },
}

impl BuildError {
    /// The text of the failure.
    pub open spec fn text(&self) -> Seq<char> {
        match self {
            BuildError::Load(error) => error.text(),
            BuildError::InitDockerized { id, .. } =>
                "Failed to initialize DockerizedzkVM, kind "@ + id@,
            BuildError::Connect(error) => "Failed to connect to Zisk cluster: "@ + error@,
            BuildError::ClusterNotZisk { id } => "Cluster is only implemented for Zisk, got "@
                + id@,
        }
    }

    /// The text of the failure.
    pub fn message(&self) -> (message: String)
        ensures
            message@ == self.text(),
    {
        match self {
            BuildError::Load(error) => error.message(),
            BuildError::InitDockerized { id, .. } => concat2(
                "Failed to initialize DockerizedzkVM, kind ",
                id.as_str(),
            ),
            BuildError::Connect(error) => concat2(
                "Failed to connect to Zisk cluster: ",
                error.as_str(),
            ),
            BuildError::ClusterNotZisk { id } => concat2(
                "Cluster is only implemented for Zisk, got ",
                id.as_str(),
            ),
        }
    }
}

/// What is to be done next to make the instances.
#[derive(Debug)]
pub enum BuildStage {
    /// Load the compiled guest program.
    Load {
        /// The guest program
        guest_name: String,
    },
    /// Set up a dockerized zkVM for the program.
    Dockerize {
        /// The place of the zkVM among the selected ones
        zkvm_index: usize,
        /// The program
        elf: Vec<u8>,
        /// The ELF for profiling
        profiling_elf: Option<Vec<u8>>,
    },
    /// Connect to the cluster, for the program.
    Connect {
        /// The place of the zkVM among the selected ones
        zkvm_index: usize,
        /// The program
        elf: Vec<u8>,
        /// The ELF for profiling
        profiling_elf: Option<Vec<u8>>,
    },
    /// Nothing is left to do.
    Finished {
        /// How the making ended
        result: Result<(), BuildError>,
    },
}

/// The answer to what a stage asks for.
#[derive(Debug)]
pub enum BuildEvent {
    /// The compiled guest program.
    Loaded(Result<CompiledGuest, LoadError>),
    /// What the zkVM says of itself that was set up or connected to, as the
    /// current zkVM.
    Built(Result<Backend, String>),
}

impl BuildStage {
    /// Whether `event` answers what this stage asks for.
    pub open spec fn accepts(&self, event: BuildEvent) -> bool {
        match self {
            BuildStage::Load { .. } => event is Loaded,
            BuildStage::Dockerize { .. } | BuildStage::Connect { .. } => event is Built,
            BuildStage::Finished { .. } => false,
        }
    }
}

/// The name of the guest program of a zkVM.
pub open spec fn guest_name(prefix: Seq<char>, zkvm: ZkVM) -> Seq<char> {
    prefix + "-"@ + zkvm.id@
}

/// The profiling ELF that an instance of this kind carries: only a Zisk guest has
/// one.
pub open spec fn profiling_elf_of(kind: zkVMKind, loaded: Option<Vec<u8>>) -> Option<Vec<u8>> {
    if kind == zkVMKind::Zisk {
        loaded
    } else {
        None
    }
}

/// How far the making of the instances of one guest program has come.
pub struct BuildState<'a> {
    /// What the names of the guest programs begin with
    pub guest_name_prefix: String,
    /// The zkVMs
    pub zkvms: &'a Vec<ZkVM>,
    /// The resource that the zkVMs run on
    pub resource: &'a ProverResource,
    /// The timeouts of the zkVMs
    pub zkvm_config: DockerizedzkVMConfig,
    /// The base path of pre-compiled binaries
    pub bin_path: Option<&'a String>,
    /// The instances that are made
    pub instances: Vec<ZkVMInstance>,
    /// What is to be done next
    pub stage: BuildStage,
}

impl<'a> BuildState<'a> {
    /// Whether `instance` is what the resource gives for `zkvm`: a dockerized
    /// zkVM of the same kind on a local resource, a client of the Zisk cluster on
    /// a cluster. The client keeps to the configured prove timeout, and only Zisk
    /// comes with a profiling ELF.
    pub open spec fn fits(&self, zkvm: ZkVM, instance: ZkVMInstance) -> bool {
        &&& instance.kind() == zkvm.kind
        &&& instance.elf() is Some ==> zkvm.kind == zkVMKind::Zisk
        &&& match self.resource {
            ProverResource::Cpu | ProverResource::Gpu => instance is Dockerized,
            ProverResource::Cluster(_) => zkvm.kind == zkVMKind::Zisk && match instance {
                ZkVMInstance::ZiskClusterClient { prove_timeout, .. } => prove_timeout
                    == self.zkvm_config.prove_timeout,
                ZkVMInstance::Dockerized { .. } => false,
            },
            ProverResource::Network(_) => false,
        }
    }

    /// The zkVM whose instance is being made.
    pub open spec fn current(&self) -> ZkVM {
        self.zkvms@[self.instances@.len() as int]
    }

    /// What always holds of the making: each instance fits its zkVM, in the
    /// order of the zkVMs, and it ends well only with one for every zkVM.
    pub open spec fn well_formed(&self) -> bool {
        &&& self.instances@.len() <= self.zkvms@.len()
        &&& forall|i: int|
            0 <= i < self.instances@.len() ==> self.fits(
                self.zkvms@[i],
                #[trigger] self.instances@[i],
            )
        &&& match self.stage {
            BuildStage::Finished { result } => result is Ok ==> self.instances@.len()
                == self.zkvms@.len(),
            BuildStage::Dockerize { zkvm_index, profiling_elf, .. } => {
                &&& self.instances@.len() < self.zkvms@.len()
                &&& zkvm_index == self.instances@.len()
                &&& self.resource is Cpu || self.resource is Gpu
                &&& profiling_elf is Some ==> self.current().kind == zkVMKind::Zisk
            },
            BuildStage::Connect { zkvm_index, .. } => {
                &&& self.instances@.len() < self.zkvms@.len()
                &&& zkvm_index == self.instances@.len()
                &&& self.resource is Cluster
                &&& self.current().kind == zkVMKind::Zisk
            },
            BuildStage::Load { guest_name: name } => self.instances@.len() < self.zkvms@.len()
                && name@ == guest_name(self.guest_name_prefix@, self.current()),
        }
    }

    /// Whether `stage` comes when `count` instances are made: the guest program
    /// of the next zkVM is loaded, if there is one.
    pub open spec fn after_instances(&self, count: nat, stage: BuildStage) -> bool {
        if count < self.zkvms@.len() {
            stage matches BuildStage::Load { guest_name: name } && name@ == guest_name(
                self.guest_name_prefix@,
                self.zkvms@[count as int],
            )
        } else {
            stage == (BuildStage::Finished { result: Ok(()) })
        }
    }

    /// Whether the making is at its beginning, for guest programs whose names
    /// begin with `prefix`.
    pub open spec fn starts(
        &self,
        prefix: Seq<char>,
        zkvms: &'a Vec<ZkVM>,
        resource: &'a ProverResource,
        zkvm_config: DockerizedzkVMConfig,
        bin_path: Option<&'a String>,
    ) -> bool {
        &&& self.guest_name_prefix@ == prefix
        &&& self.zkvms == zkvms
        &&& self.resource == resource
        &&& self.zkvm_config == zkvm_config
        &&& self.bin_path == bin_path
        &&& self.instances@.len() == 0
        &&& self.after_instances(0, self.stage)
    }

    /// Whether `load` begins the loading that the current stage asks for.
    pub open spec fn loads(&self, load: LoadState) -> bool {
        self.stage matches BuildStage::Load { guest_name: name } && load.starts(
            name@,
            match self.bin_path {
                Some(bin_path) => Some(bin_path@),
                None => None,
            },
        )
    }

    /// The instance that a dockerized zkVM or a cluster client makes.
    pub open spec fn made(&self, backend: Backend) -> ZkVMInstance {
        match self.stage {
            BuildStage::Connect { profiling_elf, .. } => ZkVMInstance::ZiskClusterClient {
                client: backend,
                prove_timeout: self.zkvm_config.prove_timeout,
                profiling_elf,
            },
            BuildStage::Dockerize { profiling_elf, .. } => ZkVMInstance::Dockerized {
                kind: self.current().kind,
                zkvm: backend,
                profiling_elf,
            },
            _ => arbitrary(),
        }
    }

    /// Whether `stage` sets up the current zkVM for the loaded guest, as the
    /// resource asks. A cluster turns every zkVM but Zisk away.
    pub open spec fn after_load(&self, guest: CompiledGuest, stage: BuildStage) -> bool {
        let kind = self.current().kind;
        match self.resource {
            ProverResource::Cpu | ProverResource::Gpu => stage matches BuildStage::Dockerize {
                zkvm_index,
                elf,
                profiling_elf,
            } && zkvm_index == self.instances@.len() && elf == guest.elf && profiling_elf
                == profiling_elf_of(kind, guest.profiling_elf),
            ProverResource::Cluster(_) => if kind == zkVMKind::Zisk {
                stage matches BuildStage::Connect { zkvm_index, elf, profiling_elf } && zkvm_index
                    == self.instances@.len() && elf == guest.elf && profiling_elf
                    == profiling_elf_of(kind, guest.profiling_elf)
            } else {
                stage matches BuildStage::Finished {
                    result: Err(BuildError::ClusterNotZisk { id }),
                } && id@ == self.current().id@
            },
            ProverResource::Network(_) => false,
        }
    }

    /// Whether `instances` and `stage` come when `event` has answered the
    /// current stage.
    pub open spec fn leads_to(
        &self,
        event: BuildEvent,
        instances: Seq<ZkVMInstance>,
        stage: BuildStage,
    ) -> bool {
        match (self.stage, event) {
            (BuildStage::Load { .. }, BuildEvent::Loaded(Ok(guest))) => instances
                == self.instances@ && self.after_load(guest, stage),
            (BuildStage::Load { .. }, BuildEvent::Loaded(Err(error))) => instances
                == self.instances@ && stage == (BuildStage::Finished {
                result: Err(BuildError::Load(error)),
            }),
            (BuildStage::Dockerize { .. }, BuildEvent::Built(Err(cause))) => instances
                == self.instances@ && (stage matches BuildStage::Finished {
                result: Err(BuildError::InitDockerized { id, error }),
            } && id@ == self.current().id@ && error == cause),
            (BuildStage::Connect { .. }, BuildEvent::Built(Err(cause))) => instances
                == self.instances@ && stage == (BuildStage::Finished {
                result: Err(BuildError::Connect(cause)),
            }),
            (
                BuildStage::Dockerize { .. },
                BuildEvent::Built(Ok(backend)),
            ) => instances == self.instances@.push(self.made(backend)) && self.after_instances(
                instances.len(),
                stage,
            ),
            (
                BuildStage::Connect { .. },
                BuildEvent::Built(Ok(backend)),
            ) => instances == self.instances@.push(self.made(backend)) && self.after_instances(
                instances.len(),
                stage,
            ),
            _ => false,
        }
    }

    /// Whether `next` is this making, one answered stage later.
    pub open spec fn steps_to(&self, event: BuildEvent, next: BuildState<'a>) -> bool {
        self.stage.accepts(event) && next.guest_name_prefix == self.guest_name_prefix && next.zkvms
            == self.zkvms && next.resource == self.resource && next.zkvm_config == self.zkvm_config
            && next.bin_path == self.bin_path && self.leads_to(event, next.instances@, next.stage)
    }
}

/// The instances of one guest program, on their way of being made.
pub struct InstanceBuild<'a> {
    state: BuildState<'a>,
}

impl<'a> View for InstanceBuild<'a> {
    type V = BuildState<'a>;

    closed spec fn view(&self) -> BuildState<'a> {
        self.state
    }
}

impl<'a> InstanceBuild<'a> {
    #[verifier::type_invariant]
    spec fn keeps_order(self) -> bool {
        self.state.well_formed()
    }

    /// What is to be done next.
    pub fn stage(&self) -> (stage: &BuildStage)
        ensures
            *stage == self@.stage,
            self@.well_formed(),
    {
        proof {
            use_type_invariant(self);
        }
        &self.state.stage
    }

    /// The zkVM whose instance is being made.
    pub fn current_zkvm(&self) -> (zkvm: &'a ZkVM)
        requires
            !(self@.stage is Finished),
        ensures
            *zkvm == self@.current(),
    {
        proof {
            use_type_invariant(self);
        }
        &self.state.zkvms[self.state.instances.len()]
    }

    /// The resource that the zkVMs run on.
    pub fn resource(&self) -> (resource: &'a ProverResource)
        ensures
            resource == self@.resource,
    {
        self.state.resource
    }

    /// The timeouts of the zkVMs.
    pub fn zkvm_config(&self) -> (config: DockerizedzkVMConfig)
        ensures
            config == self@.zkvm_config,
    {
        self.state.zkvm_config
    }

    /// Begins the loading that the current stage asks for: from the binaries on
    /// disk where their path is given, by a download otherwise.
    pub fn load(&self) -> (load: LoadCompiled)
        requires
            self@.stage is Load,
        ensures
            self@.loads(load@),
    {
        let name = match &self.state.stage {
            BuildStage::Load { guest_name } => guest_name.clone(),
            _ => String::new(),
        };
        let bin_path = match self.state.bin_path {
            Some(bin_path) => Some(bin_path.clone()),
            None => None,
        };
        load_compiled(name, bin_path)
    }

    /// Moves on with the answer to what the current stage asks for. Guest
    /// programs are not set up on a prover network.
    pub fn step(self, event: BuildEvent) -> (next: InstanceBuild<'a>)
        requires
            self@.stage.accepts(event),
            self@.resource is Network ==> !(event matches BuildEvent::Loaded(Ok(_))),
        ensures
            self@.steps_to(event, next@),
            next@.well_formed(),
    {
        proof {
            use_type_invariant(&self);
        }
        let BuildState {
            guest_name_prefix,
            zkvms,
            resource,
            zkvm_config,
            bin_path,
            mut instances,
            stage,
        } = self.state;
        let zkvm_index: usize = instances.len();
        let stage = match (stage, event) {
            (BuildStage::Load { .. }, BuildEvent::Loaded(answer)) => match answer {
                Ok(guest) => {
                    let is_zisk = zkvms[zkvm_index].kind == zkVMKind::Zisk;
                    let elf = guest.elf;
                    let profiling_elf = if is_zisk {
                        guest.profiling_elf
                    } else {
                        None
                    };
                    match resource {
                        ProverResource::Cpu | ProverResource::Gpu => BuildStage::Dockerize {
                            zkvm_index,
                            elf,
                            profiling_elf,
                        },
                        ProverResource::Cluster(_) | ProverResource::Network(_) => if is_zisk {
                            BuildStage::Connect { zkvm_index, elf, profiling_elf }
                        } else {
                            BuildStage::Finished {
                                result: Err(
                                    BuildError::ClusterNotZisk { id: zkvms[zkvm_index].id.clone() },
                                ),
                            }
                        },
                    }
                },
                Err(error) => BuildStage::Finished { result: Err(BuildError::Load(error)) },
            },
            (BuildStage::Dockerize { profiling_elf, .. }, BuildEvent::Built(answer)) => match answer {
                Ok(zkvm) => {
                    let kind: zkVMKind = zkvms[zkvm_index].kind;
                    instances.push(ZkVMInstance::Dockerized { kind, zkvm, profiling_elf });
                    load_stage(&guest_name_prefix, zkvms, instances.len())
                },
                Err(error) => BuildStage::Finished {
                    result: Err(
                        BuildError::InitDockerized { id: zkvms[zkvm_index].id.clone(), error },
                    ),
                },
            },
            (BuildStage::Connect { profiling_elf, .. }, BuildEvent::Built(answer)) => match answer {
                Ok(client) => {
                    instances.push(
                        ZkVMInstance::ZiskClusterClient {
                            client,
                            prove_timeout: zkvm_config.prove_timeout,
                            profiling_elf,
                        },
                    );
                    load_stage(&guest_name_prefix, zkvms, instances.len())
                },
                Err(error) => BuildStage::Finished { result: Err(BuildError::Connect(error)) },
            },
            (stage, _) => stage,
        };
        let state = BuildState {
            guest_name_prefix,
            zkvms,
            resource,
            zkvm_config,
            bin_path,
            instances,
            stage,
        };
        proof {
            lemma_build_step(self.state, event, state);
        }
        InstanceBuild { state }
    }

    /// Hands out the instances of a making that is over: one for each zkVM, in
    /// their order, or why there are none.
    pub fn into_instances(self) -> (instances: Result<Vec<ZkVMInstance>, BuildError>)
        requires
            self@.stage is Finished,
        ensures
            match self@.stage {
                BuildStage::Finished { result: Ok(_) } => instances matches Ok(made) && made
                    == self@.instances && made@.len() == self@.zkvms@.len() && forall|i: int|
                    0 <= i < made@.len() ==> self@.fits(self@.zkvms@[i], #[trigger] made@[i]),
                BuildStage::Finished { result: Err(error) } => instances == Err::<
                    Vec<ZkVMInstance>,
                    BuildError,
                >(error),
                _ => true,
            },
    {
        proof {
            use_type_invariant(&self);
        }
        match self.state.stage {
            BuildStage::Finished { result: Err(error) } => Err(error),
            _ => Ok(self.state.instances),
        }
    }
}

/// The stage that loads the guest program of the zkVM at `at`, or the end where
/// there is no such zkVM.
fn load_stage(prefix: &String, zkvms: &Vec<ZkVM>, at: usize) -> (stage: BuildStage)
    ensures
        if at < zkvms@.len() {
            stage matches BuildStage::Load { guest_name: name } && name@ == guest_name(
                prefix@,
                zkvms@[at as int],
            )
        } else {
            stage == (BuildStage::Finished { result: Ok(()) })
        },
{
    if at < zkvms.len() {
        BuildStage::Load { guest_name: concat3(prefix.as_str(), "-", zkvms[at].id.as_str()) }
    } else {
        BuildStage::Finished { result: Ok(()) }
    }
}

/// Starts making the instances of a guest program, one for each zkVM.
pub fn get_guest_zkvm_instances<'a>(
    guest_name_prefix: &str,
    zkvms: &'a Vec<ZkVM>,
    resource: &'a ProverResource,
    zkvm_config: DockerizedzkVMConfig,
    bin_path: Option<&'a String>,
) -> (build: InstanceBuild<'a>)
    ensures
        build@.starts(guest_name_prefix@, zkvms, resource, zkvm_config, bin_path),
{
    let prefix = guest_name_prefix.to_owned();
    let stage = load_stage(&prefix, zkvms, 0);
    InstanceBuild {
        state: BuildState {
            guest_name_prefix: prefix,
            zkvms,
            resource,
            zkvm_config,
            bin_path,
            instances: Vec::new(),
            stage,
        },
    }
}

/// Starts making the instances of an execution client's stateless validator.
pub fn get_el_zkvm_instances<'a>(
    el: &str,
    zkvms: &'a Vec<ZkVM>,
    resource: &'a ProverResource,
    zkvm_config: DockerizedzkVMConfig,
    bin_path: Option<&'a String>,
) -> (build: InstanceBuild<'a>)
    ensures
        build@.starts(el_prefix(el@), zkvms, resource, zkvm_config, bin_path),
{
    let prefix = el_guest_name_prefix(el);
    get_guest_zkvm_instances(prefix.as_str(), zkvms, resource, zkvm_config, bin_path)
}

/// Whether the making went through the states `states`, each answered by the
/// event at the same place, from its beginning.
pub open spec fn build_trace(states: Seq<BuildState>, events: Seq<BuildEvent>) -> bool {
    &&& states.len() == events.len() + 1
    &&& states[0].instances@.len() == 0
    &&& states[0].after_instances(0, states[0].stage)
    &&& forall|i: int|
        0 <= i < events.len() ==> (#[trigger] states[i]).steps_to(events[i], states[i + 1])
}

/// How many stages can come after this one at most: two for each zkVM that has
/// no instance yet, one where its guest program is loaded.
pub open spec fn build_stages_left(build: BuildState) -> int {
    let missing = build.zkvms@.len() - build.instances@.len();
    match build.stage {
        BuildStage::Load { .. } => 2 * missing,
        BuildStage::Dockerize { .. } | BuildStage::Connect { .. } => 2 * missing - 1,
        BuildStage::Finished { .. } => 0,
    }
}

proof fn lemma_build_step(build: BuildState, event: BuildEvent, next: BuildState)
    requires
        build.well_formed(),
        build.steps_to(event, next),
    ensures
        next.well_formed(),
        build_stages_left(next) < build_stages_left(build),
{
    assert forall|i: int| 0 <= i < next.instances@.len() implies next.fits(
        next.zkvms@[i],
        #[trigger] next.instances@[i],
    ) by {
        if i < build.instances@.len() {
            assert(build.fits(build.zkvms@[i], build.instances@[i]));
            assert(next.instances@[i] == build.instances@[i]);
        }
    }
}

proof fn lemma_build_trace(states: Seq<BuildState>, events: Seq<BuildEvent>, i: int)
    requires
        build_trace(states, events),
        0 <= i < states.len(),
    ensures
        states[i].well_formed(),
        states[i].zkvms == states[0].zkvms,
        states[i].resource == states[0].resource,
        states[i].zkvm_config == states[0].zkvm_config,
        states[i].bin_path == states[0].bin_path,
        states[i].guest_name_prefix == states[0].guest_name_prefix,
        build_stages_left(states[i]) + i <= 2 * states[0].zkvms@.len(),
    decreases i,
{
    if i > 0 {
        lemma_build_trace(states, events, i - 1);
        assert(states[i - 1].steps_to(events[i - 1], states[i]));
        lemma_build_step(states[i - 1], events[i - 1], states[i]);
    }
}

/// The making comes to an end after at most two answered stages for each zkVM.
pub proof fn law_making_ends(states: Seq<BuildState>, events: Seq<BuildEvent>)
    requires
        build_trace(states, events),
    ensures
        events.len() <= 2 * states[0].zkvms@.len(),
        events.len() == 2 * states[0].zkvms@.len() ==> states.last().stage is Finished,
{
    lemma_build_trace(states, events, events.len() as int);
}

/// A making that ends well has made one instance for each zkVM, in their order
/// and each as the resource asks.
pub proof fn law_one_instance_for_each_zkvm(states: Seq<BuildState>, events: Seq<BuildEvent>)
    requires
        build_trace(states, events),
        states.last().stage == (BuildStage::Finished { result: Ok(()) }),
    ensures
        states.last().instances@.len() == states[0].zkvms@.len(),
        forall|i: int|
            0 <= i < states[0].zkvms@.len() ==> states[0].fits(
                states[0].zkvms@[i],
                #[trigger] states.last().instances@[i],
            ),
{
    let last = states.last();
    lemma_build_trace(states, events, events.len() as int);
    assert forall|i: int| 0 <= i < states[0].zkvms@.len() implies states[0].fits(
        states[0].zkvms@[i],
        #[trigger] last.instances@[i],
    ) by {
        assert(last.fits(last.zkvms@[i], last.instances@[i]));
    }
}

/// At every point of the making, only the instances of Zisk carry a profiling
/// ELF, whatever the loaded guest programs came with.
pub proof fn law_profiling_elf_means_zisk(
    states: Seq<BuildState>,
    events: Seq<BuildEvent>,
    at: int,
    i: int,
)
    requires
        build_trace(states, events),
        0 <= at < states.len(),
        0 <= i < states[at].instances@.len(),
        states[at].instances@[i].elf() is Some,
    ensures
        states[0].zkvms@[i].kind == zkVMKind::Zisk,
{
    lemma_build_trace(states, events, at);
    assert(states[at].fits(states[at].zkvms@[i], states[at].instances@[i]));
}

/// Every cluster client keeps to the prove timeout of the configuration: a
/// configuration without one puts no cap on its prove requests.
pub proof fn law_clusters_keep_the_prove_timeout(
    states: Seq<BuildState>,
    events: Seq<BuildEvent>,
    at: int,
    i: int,
)
    requires
        build_trace(states, events),
        0 <= at < states.len(),
        0 <= i < states[at].instances@.len(),
        states[at].instances@[i] is ZiskClusterClient,
    ensures
        states[at].instances@[i]->prove_timeout == states[0].zkvm_config.prove_timeout,
{
    lemma_build_trace(states, events, at);
    assert(states[at].fits(states[at].zkvms@[i], states[at].instances@[i]));
}

/// A zkVM is set up only for its own guest program: the stage before loaded the
/// program of this name, and the ELF that it gave is the one that is set up.
pub proof fn law_zkvms_are_set_up_for_their_guest(
    states: Seq<BuildState>,
    events: Seq<BuildEvent>,
    i: int,
)
    requires
        build_trace(states, events),
        0 <= i < states.len(),
        states[i].stage is Dockerize || states[i].stage is Connect,
    ensures
        ({
            let index = states[i].instances@.len() as int;
            let zkvm = states[0].zkvms@[index];
            &&& i > 0
            &&& states[i - 1].stage matches BuildStage::Load { guest_name: name } && name@
                == guest_name(states[0].guest_name_prefix@, zkvm)
            &&& events[i - 1] matches BuildEvent::Loaded(Ok(guest)) && match states[i].stage {
                BuildStage::Dockerize { zkvm_index, elf, profiling_elf } => zkvm_index == index
                    && elf == guest.elf && profiling_elf == profiling_elf_of(
                    zkvm.kind,
                    guest.profiling_elf,
                ),
                BuildStage::Connect { zkvm_index, elf, profiling_elf } => zkvm_index == index
                    && elf == guest.elf && profiling_elf == profiling_elf_of(
                    zkvm.kind,
                    guest.profiling_elf,
                ),
                _ => false,
            }
        }),
{
    if i > 0 {
        lemma_build_trace(states, events, i - 1);
        assert(states[i - 1].steps_to(events[i - 1], states[i]));
    }
}

/// What a zkVM that was set up says of itself becomes the next instance, of the
/// kind that was asked for, and the instances before it stay.
pub proof fn law_instances_are_what_was_built(
    states: Seq<BuildState>,
    events: Seq<BuildEvent>,
    i: int,
    backend: Backend,
)
    requires
        build_trace(states, events),
        0 <= i < events.len(),
        events[i] == BuildEvent::Built(Ok(backend)),
    ensures
        states[i + 1].instances@.len() == states[i].instances@.len() + 1,
        states[i + 1].instances@.last().backend() == backend,
        states[i + 1].instances@.drop_last() == states[i].instances@,
        states[i + 1].instances@.last().kind()
            == states[0].zkvms@[states[i].instances@.len() as int].kind,
{
    lemma_build_trace(states, events, i);
    assert(states[i].steps_to(events[i], states[i + 1]));
    assert(states[i + 1].instances@.drop_last() =~= states[i].instances@);
}

/// Under a plan that passed the checks, no cluster turns a zkVM away.
pub proof fn law_planned_clusters_run_every_zkvm(
    cli: Cli,
    el_version: Seq<char>,
    plan: BenchmarkPlan,
    states: Seq<BuildState>,
    events: Seq<BuildEvent>,
    i: int,
)
    requires
        cli.conflict() is None,
        cli.amounts_to(el_version, plan),
        build_trace(states, events),
        *states[0].zkvms == plan.zkvms,
        *states[0].resource == plan.resource,
        0 <= i < states.len(),
    ensures
        !(states[i].stage matches BuildStage::Finished {
            result: Err(BuildError::ClusterNotZisk { .. }),
        }),
{
    lemma_build_trace(states, events, i);
    if i > 0 {
        lemma_build_trace(states, events, i - 1);
        assert(states[i - 1].steps_to(events[i - 1], states[i]));
        if plan.resource is Cluster {
            law_cluster_means_zisk_without_execution(cli, el_version, plan);
        }
    }
}

/// Under a plan that passed the checks, executions run on dockerized zkVMs only:
/// no cluster client is ever asked to execute.
pub proof fn law_planned_executions_are_dockerized(
    cli: Cli,
    el_version: Seq<char>,
    plan: BenchmarkPlan,
    build: BuildState,
    i: int,
)
    requires
        cli.conflict() is None,
        cli.amounts_to(el_version, plan),
        plan.config.action == Action::Execute,
        build.well_formed(),
        *build.resource == plan.resource,
        0 <= i < build.instances@.len(),
    ensures
        build.instances@[i] is Dockerized,
{
    assert(build.fits(build.zkvms@[i], build.instances@[i]));
}

/// The guest programs of different zkVMs have different names.
pub proof fn law_guest_names_are_distinct(prefix: Seq<char>, a: ZkVM, b: ZkVM)
    requires
        guest_name(prefix, a) == guest_name(prefix, b),
    ensures
        a.id@ == b.id@,
{
    let head = prefix + "-"@;
    assert(guest_name(prefix, a).skip(head.len() as int) =~= a.id@);
    assert(guest_name(prefix, b).skip(head.len() as int) =~= b.id@);
}

/// Whether the two failures are the same, in the same words.
pub open spec fn errors_agree(a: BuildError, b: BuildError) -> bool {
    match (a, b) {
        (
            BuildError::InitDockerized { id: id_a, error: error_a },
            BuildError::InitDockerized { id: id_b, error: error_b },
        ) => id_a@ == id_b@ && error_a == error_b,
        (BuildError::ClusterNotZisk { id: id_a }, BuildError::ClusterNotZisk { id: id_b }) => id_a@
            == id_b@,
        _ => a == b,
    }
}

/// Whether the two makings have come equally far, with the same instances.
pub open spec fn builds_agree(a: BuildState, b: BuildState) -> bool {
    &&& a.guest_name_prefix@ == b.guest_name_prefix@
    &&& a.zkvms == b.zkvms
    &&& a.resource == b.resource
    &&& a.zkvm_config == b.zkvm_config
    &&& a.bin_path == b.bin_path
    &&& a.instances@ == b.instances@
    &&& match (a.stage, b.stage) {
        (
            BuildStage::Load { guest_name: name_a },
            BuildStage::Load { guest_name: name_b },
        ) => name_a@ == name_b@,
        (
            BuildStage::Finished { result: Err(error_a) },
            BuildStage::Finished { result: Err(error_b) },
        ) => errors_agree(error_a, error_b),
        _ => a.stage == b.stage,
    }
}

/// The instances of an execution client's stateless validator are those of the
/// guest programs whose names begin with `stateless-validator-` and the client:
/// the two makings agree at every point, whatever the answers are.
pub proof fn law_el_instances_are_guest_instances<'a>(
    el: Seq<char>,
    zkvms: &'a Vec<ZkVM>,
    resource: &'a ProverResource,
    zkvm_config: DockerizedzkVMConfig,
    bin_path: Option<&'a String>,
    of_el: Seq<BuildState<'a>>,
    of_guest: Seq<BuildState<'a>>,
    events: Seq<BuildEvent>,
    i: int,
)
    requires
        build_trace(of_el, events),
        build_trace(of_guest, events),
        of_el[0].starts(el_prefix(el), zkvms, resource, zkvm_config, bin_path),
        of_guest[0].starts(
            "stateless-validator-"@ + el,
            zkvms,
            resource,
            zkvm_config,
            bin_path,
        ),
        0 <= i < of_el.len(),
    ensures
        builds_agree(of_el[i], of_guest[i]),
    decreases i,
{
    if i == 0 {
        assert(of_el[0].instances@ =~= of_guest[0].instances@);
    } else {
        law_el_instances_are_guest_instances(
            el,
            zkvms,
            resource,
            zkvm_config,
            bin_path,
            of_el,
            of_guest,
            events,
            i - 1,
        );
        lemma_build_trace(of_el, events, i - 1);
        lemma_build_trace(of_guest, events, i - 1);
        assert(of_el[i - 1].steps_to(events[i - 1], of_el[i]));
        assert(of_guest[i - 1].steps_to(events[i - 1], of_guest[i]));
    }
}

/// With a base path of binaries, the ELF of each zkVM's stateless validator is
/// read from the file that is named after the execution client and the zkVM.
pub proof fn law_el_elf_is_read_from_its_file(
    el: Seq<char>,
    states: Seq<BuildState>,
    events: Seq<BuildEvent>,
    i: int,
    load: LoadState,
)
    requires
        build_trace(states, events),
        states[0].guest_name_prefix@ == el_prefix(el),
        states[0].bin_path is Some,
        0 <= i < states.len(),
        states[i].loads(load),
    ensures
        ({
            let zkvm = states[0].zkvms@[states[i].instances@.len() as int];
            load.stage matches LoadStage::ReadElf { path } && path@ == path_join(
                states[0].bin_path->0@,
                "stateless-validator-"@ + el + "-"@ + zkvm.id@ + ".elf"@,
            )
        }),
{
    lemma_build_trace(states, events, i);
}

} // verus!
