use vstd::prelude::*;

use crate::error::VerificationError;

verus! {

/// Origin of one observed output line, as reported by the container
/// engine's multiplexed log stream.
#[derive(Clone, Copy, Debug, PartialEq, Eq, Structural)]
pub enum LogOrigin {
    StdOut,
    StdErr,
    Console,
}

/// Mathematical image of a [`LogLine`].
pub struct LogLineModel {
    pub origin: LogOrigin,
    pub content: Seq<char>,
}

/// One output line observed on a container, tagged with its origin.
pub struct LogLine {
    pub origin: LogOrigin,
    pub content: String,
}

impl View for LogLine {
    type V = LogLineModel;

    open spec fn view(&self) -> LogLineModel {
        LogLineModel { origin: self.origin, content: self.content@ }
    }
}

impl DeepView for LogLine {
    type V = LogLineModel;

    open spec fn deep_view(&self) -> LogLineModel {
        self.view()
    }
}

impl LogLine {
    /// Tag a content line with its origin.
    pub fn new(origin: LogOrigin, content: String) -> (r: LogLine)
        ensures
            r@ == (LogLineModel { origin, content: content@ }),
    {
        LogLine { origin, content }
    }

    /// Copy of this line, carrying the same origin and content.
    pub fn duplicate(&self) -> (r: LogLine)
        ensures
            r@ == self@,
    {
        LogLine { origin: self.origin, content: self.content.clone() }
    }
}

/// Mathematical image of one bind mount of a [`ContainerSpec`].
pub struct BindMountModel {
    pub source: Seq<char>,
    pub target: Seq<char>,
    pub consistency: Seq<char>,
}

/// One bind mount of a container: a host path made visible at a fixed
/// in-container path.
pub struct BindMount {
    pub source: String,
    pub target: String,
    pub consistency: String,
}

impl View for BindMount {
    type V = BindMountModel;

    open spec fn view(&self) -> BindMountModel {
        BindMountModel {
            source: self.source@,
            target: self.target@,
            consistency: self.consistency@,
        }
    }
}

impl DeepView for BindMount {
    type V = BindMountModel;

    open spec fn deep_view(&self) -> BindMountModel {
        self.view()
    }
}

/// Mathematical image of a [`ContainerSpec`].
pub struct ContainerSpecModel {
    pub image: Seq<char>,
    pub mounts: Seq<BindMountModel>,
    pub network_mode: Seq<char>,
    pub environment: Seq<Seq<char>>,
    pub command: Seq<Seq<char>>,
    pub working_dir: Seq<char>,
    pub auto_remove: bool,
}

/// Everything the container engine needs to create one container: image
/// reference, ordered bind-mount list, network mode, environment, command
/// argument vector and working directory.
///
/// A spec is derived fresh from a plan on every start and never stored;
/// restart is always "destroy and rebuild".
pub struct ContainerSpec {
    pub image: String,
    pub mounts: Vec<BindMount>,
    pub network_mode: String,
    pub environment: Vec<String>,
    pub command: Vec<String>,
    pub working_dir: String,
    pub auto_remove: bool,
}

impl View for ContainerSpec {
    type V = ContainerSpecModel;

    open spec fn view(&self) -> ContainerSpecModel {
        ContainerSpecModel {
            image: self.image@,
            mounts: self.mounts.deep_view(),
            network_mode: self.network_mode@,
            environment: self.environment.deep_view(),
            command: self.command.deep_view(),
            working_dir: self.working_dir@,
            auto_remove: self.auto_remove,
        }
    }
}

/// Abstract state of one container held by the engine: the image it was
/// created from, its raw lifecycle status (passed through verbatim), the
/// command it was created with, and the output observed so far.
pub struct ContainerModel {
    pub image: Seq<char>,
    pub status: Seq<char>,
    pub command: Seq<Seq<char>>,
    pub logs: Seq<LogLineModel>,
}

/// The container a successful `create` call puts into the engine state.
pub open spec fn spec_created_container(spec: ContainerSpecModel) -> ContainerModel {
    ContainerModel {
        image: spec.image,
        status: "created"@,
        command: spec.command,
        logs: Seq::empty(),
    }
}

/// The container a successful `start` call leaves behind: the same
/// container, now in the `running` lifecycle state.
pub open spec fn spec_running_container(c: ContainerModel) -> ContainerModel {
    ContainerModel { status: "running"@, ..c }
}

/// Status and image of one container, as read back by an inspect call.
pub struct InspectedState {
    pub docker_image: String,
    pub raw_status: String,
}

/// Narrow capability interface onto a container engine: list by exact name,
/// force-remove, create, start, inspect, and collect the log stream.
///
/// The engine's bookkeeping is abstracted as a map from container name to
/// [`ContainerModel`]; every contract below speaks of the state at the time
/// of the call. The engine may refuse any call with a connection or engine
/// error; what each contract pins down is how the state and the result
/// relate whenever a call succeeds, and that a `NotFound` failure is
/// reported exactly when no container carries the requested name.
pub trait ContainerAPIClient: Sized {
    /// Engine bookkeeping: the containers that exist, by name. An
    /// implementation inside this crate overrides this with its own state
    /// model; for an outside engine the map stays abstract.
    open spec fn containers(&self) -> Map<Seq<char>, ContainerModel> {
        Map::empty()
    }

    /// Whether a container with exactly this name exists.
    fn container_exists(&self, container_name: &str) -> (r: Result<bool, VerificationError>)
        ensures
            r matches Ok(b) ==> b == self.containers().dom().contains(container_name@),
            r matches Err(e) ==> e is RuntimeConnection || e is Engine,
    ;

    /// Force-remove the named container (stopping it first if needed).
    /// Succeeds also when no such container exists.
    fn remove_container(&mut self, container_name: &str) -> (r: Result<(), VerificationError>)
        ensures
            r is Ok ==> final(self).containers() == old(self).containers().remove(
                container_name@,
            ),
            r matches Err(e) ==> e is RuntimeConnection || e is Engine,
    ;

    /// Create a container under the given name from the given spec. The
    /// engine accepts the call only while the name is free.
    fn create_container(&mut self, container_name: &str, spec: &ContainerSpec) -> (r: Result<(), VerificationError>)
        ensures
            r is Ok ==> !old(self).containers().dom().contains(container_name@) && final(self).containers() == old(self).containers().insert(
                container_name@,
                spec_created_container(spec@),
            ),
            r matches Err(e) ==> e is RuntimeConnection || e is Engine,
    ;

    /// Start the named, already created container.
    fn start_container(&mut self, container_name: &str) -> (r: Result<(), VerificationError>)
        ensures
            r is Ok ==> old(self).containers().dom().contains(container_name@) && final(self).containers() == old(self).containers().insert(
                container_name@,
                spec_running_container(old(self).containers()[container_name@]),
            ),
            r matches Err(e) ==> e is NotFound || e is RuntimeConnection || e is Engine,
            (r matches Err(e) && e is NotFound) ==> !old(self).containers().dom().contains(
                container_name@,
            ),
    ;

    /// Read the named container's image and raw lifecycle status.
    fn inspect_container(&self, container_name: &str) -> (r: Result<
        InspectedState,
        VerificationError,
    >)
        ensures
            r matches Ok(state) ==> self.containers().dom().contains(container_name@)
                && state.docker_image@ == self.containers()[container_name@].image
                && state.raw_status@ == self.containers()[container_name@].status,
            r matches Err(e) ==> e is NotFound || e is RuntimeConnection || e is Engine,
            (r matches Err(e) && e is NotFound) ==> !self.containers().dom().contains(
                container_name@,
            ),
    ;

    /// Drain the named container's log stream to completion and hand back
    /// every observed line, in emission order, tagged with its origin.
    fn container_logs(&self, container_name: &str) -> (r: Result<Vec<LogLine>, VerificationError>)
        ensures
            r matches Ok(lines) ==> self.containers().dom().contains(container_name@)
                && lines.deep_view() == self.containers()[container_name@].logs,
            r matches Err(e) ==> e is NotFound || e is RuntimeConnection || e is Engine,
            (r matches Err(e) && e is NotFound) ==> !self.containers().dom().contains(
                container_name@,
            ),
    ;
}

/// Mathematical image of a [`RuntimeConfig`].
pub struct RuntimeConfigModel {
    pub docker_image: Seq<char>,
    pub rvt_directory: Seq<char>,
    pub verification_script: Seq<char>,
    pub uid_gid: Seq<char>,
    pub scaffold_base_directory: Seq<char>,
}

/// Explicit configuration of the container lifecycle manager, injected at
/// construction instead of being read from the process environment: the
/// verification-tools image, the host paths bound into every container, the
/// `uid:gid` the tools run under, and the directory under which projects
/// are scaffolded.
pub struct RuntimeConfig {
    pub docker_image: String,
    pub rvt_directory: String,
    pub verification_script: String,
    pub uid_gid: String,
    pub scaffold_base_directory: String,
}

impl View for RuntimeConfig {
    type V = RuntimeConfigModel;

    open spec fn view(&self) -> RuntimeConfigModel {
        RuntimeConfigModel {
            docker_image: self.docker_image@,
            rvt_directory: self.rvt_directory@,
            verification_script: self.verification_script@,
            uid_gid: self.uid_gid@,
            scaffold_base_directory: self.scaffold_base_directory@,
        }
    }
}

impl RuntimeConfig {
    /// Gather the lifecycle manager's configuration into one value.
    pub fn new(
        docker_image: String,
        rvt_directory: String,
        verification_script: String,
        uid_gid: String,
        scaffold_base_directory: String,
    ) -> (r: RuntimeConfig)
        ensures
            r@ == (RuntimeConfigModel {
                docker_image: docker_image@,
                rvt_directory: rvt_directory@,
                verification_script: verification_script@,
                uid_gid: uid_gid@,
                scaffold_base_directory: scaffold_base_directory@,
            }),
    {
        RuntimeConfig {
            docker_image,
            rvt_directory,
            verification_script,
            uid_gid,
            scaffold_base_directory,
        }
    }
}

} // verus!
