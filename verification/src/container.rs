use vstd::prelude::*;

use crate::engine::{
    spec_created_container, spec_running_container, BindMount, BindMountModel, ContainerAPIClient,
    ContainerModel, ContainerSpec, ContainerSpecModel, RuntimeConfig, RuntimeConfigModel,
};
use crate::error::VerificationError;
use crate::plan::{PlanModel, StepInVerificationPlan};
use crate::step::{spec_command_template, StepProvider};

verus! {

/// Splitting a rendered command string on single spaces, with the exact
/// semantics of splitting on every space character: consecutive spaces
/// yield empty segments and the empty string yields one empty segment.
///
/// No shell is involved, so a command template must not embed multi-word
/// quoted arguments; this is a deliberate, documented limitation.
pub open spec fn spec_split_spaces(s: Seq<char>) -> Seq<Seq<char>>
    decreases s.len(),
{
    if s.len() == 0 {
        seq![Seq::<char>::empty()]
    } else if s[0] == ' ' {
        seq![Seq::<char>::empty()] + spec_split_spaces(s.skip(1))
    } else {
        let rest = spec_split_spaces(s.skip(1));
        seq![seq![s[0]] + rest[0]] + rest.skip(1)
    }
}

/// A split always produces at least one segment.
pub proof fn lemma_split_spaces_nonempty(s: Seq<char>)
    ensures
        spec_split_spaces(s).len() >= 1,
    decreases s.len(),
{
    if s.len() == 0 {
    } else {
        lemma_split_spaces_nonempty(s.skip(1));
    }
}

/// The remaining segments once a prefix of the first segment has already
/// been set aside.
spec fn spec_cons_prefix(prefix: Seq<char>, segments: Seq<Seq<char>>) -> Seq<Seq<char>> {
    seq![prefix + segments[0]] + segments.skip(1)
}

/// Split a rendered command string on single spaces into its argument
/// vector.
pub fn split_on_spaces(s: &str) -> (r: Vec<String>)
    ensures
        r.deep_view() == spec_split_spaces(s@),
{
    let n = s.unicode_len();
    let mut result: Vec<String> = Vec::new();
    let mut current = String::new();
    let mut i: usize = 0;
    proof {
        lemma_split_spaces_nonempty(s@);
        assert(s@.skip(0) =~= s@);
        assert(current@ + spec_split_spaces(s@)[0] =~= spec_split_spaces(s@)[0]);
        assert(result.deep_view() + spec_cons_prefix(current@, spec_split_spaces(s@.skip(0)))
            =~= spec_split_spaces(s@));
    }
    while i < n
        invariant
            0 <= i <= n,
            n == s@.len(),
            result.deep_view() + spec_cons_prefix(current@, spec_split_spaces(s@.skip(i as int)))
                == spec_split_spaces(s@),
        decreases n - i,
    {
        let ghost prev_result = result.deep_view();
        let ghost prev_current = current@;
        let ghost remaining = s@.skip(i as int);
        proof {
            assert(remaining[0] == s@[i as int]);
            assert(remaining.skip(1) =~= s@.skip(i as int + 1));
            lemma_split_spaces_nonempty(s@.skip(i as int + 1));
        }
        let c = s.get_char(i);
        if c == ' ' {
            result.push(current);
            current = String::new();
            proof {
                let rest = spec_split_spaces(s@.skip(i as int + 1));
                assert(spec_split_spaces(remaining) == seq![Seq::<char>::empty()] + rest);
                assert(spec_cons_prefix(prev_current, spec_split_spaces(remaining)) =~= seq![
                    prev_current] + rest);
                assert(spec_cons_prefix(current@, rest) =~= rest);
                assert(result.deep_view() =~= prev_result + seq![prev_current]);
                assert(result.deep_view() + spec_cons_prefix(current@, rest) =~= prev_result + (
                seq![prev_current] + rest));
                assert(prev_result + (seq![prev_current] + rest) =~= prev_result + seq![
                    prev_current] + rest);
                assert(prev_result + spec_cons_prefix(prev_current, spec_split_spaces(remaining))
                    =~= prev_result + seq![prev_current] + rest);
            }
        } else {
            let piece = s.substring_char(i, i + 1);
            current.append(piece);
            proof {
                let rest = spec_split_spaces(s@.skip(i as int + 1));
                assert(piece@ =~= seq![s@[i as int]]);
                assert(spec_split_spaces(remaining) == seq![seq![remaining[0]] + rest[0]]
                    + rest.skip(1));
                assert(current@ =~= prev_current + seq![s@[i as int]]);
                assert(prev_current + (seq![s@[i as int]] + rest[0]) =~= current@ + rest[0]);
                assert(spec_cons_prefix(prev_current, spec_split_spaces(remaining))
                    =~= spec_cons_prefix(current@, rest));
            }
        }
        i += 1;
    }
    proof {
        assert(s@.skip(n as int) =~= Seq::<char>::empty());
        assert(spec_split_spaces(s@.skip(n as int)) == seq![Seq::<char>::empty()]);
        assert(spec_cons_prefix(current@, seq![Seq::<char>::empty()]) =~= seq![current@]);
    }
    let ghost prev_result = result.deep_view();
    let ghost last = current@;
    result.push(current);
    proof {
        assert(result.deep_view() =~= prev_result + seq![last]);
    }
    result
}

/// Command rendering round-trips deterministically: the same (provider,
/// prefixed identifier, artifact name, flags) always yields the same command
/// string, and splitting that string always yields the same argument vector.
pub proof fn lemma_command_rendering_deterministic(
    provider: StepProvider,
    prefixed_identifier: Seq<char>,
    artifact_name: Seq<char>,
    optional_flags: Option<Seq<char>>,
    first: Seq<char>,
    second: Seq<char>,
)
    requires
        first == spec_command_template(provider, prefixed_identifier, artifact_name, optional_flags),
        second == spec_command_template(
            provider,
            prefixed_identifier,
            artifact_name,
            optional_flags,
        ),
    ensures
        first == second,
        spec_split_spaces(first) == spec_split_spaces(second),
{
}

/// Artifact file name produced by bitcode-producing steps for a project.
pub open spec fn spec_bitcode_filename(project_id: Seq<char>) -> Seq<char> {
    project_id + ".bc"@
}

/// Derive the bitcode artifact name (`<project_id>.bc`) for a project.
pub fn get_bitcode_filename(project_id: &str) -> (r: String)
    ensures
        r@ == spec_bitcode_filename(project_id@),
{
    let mut name = project_id.to_owned();
    name.append(".bc");
    name
}

/// Tool-friendly project name: the raw identifier behind a fixed prefix, so
/// the result is a valid package or binary name even when the identifier
/// starts with a digit.
pub open spec fn spec_project_name(project_id: Seq<char>) -> Seq<char> {
    "safepkt_"@ + project_id
}

/// Format a project name from a project identifier, for use as a package or
/// binary name. The result always starts with a letter.
pub fn format_project_name(project_id: &str) -> (r: String)
    ensures
        r@ == spec_project_name(project_id@),
{
    let mut name = "safepkt_".to_owned();
    name.append(project_id);
    name
}

/// Host directory a project is scaffolded into, under the configured base
/// directory.
pub open spec fn spec_scaffold_directory(base_directory: Seq<char>, project_id: Seq<char>) -> Seq<
    char,
> {
    base_directory + "/"@ + project_id
}

/// Format the path to the directory a project is scaffolded into.
pub fn format_directory_path_to_scaffold(base_directory: &str, project_id: &str) -> (r: String)
    ensures
        r@ == spec_scaffold_directory(base_directory@, project_id@),
{
    let mut path = base_directory.to_owned();
    path.append("/");
    path.append(project_id);
    path
}

/// In-container path the scaffolded project sources are bound to, and the
/// container's working directory.
pub open spec fn spec_target_source_directory() -> Seq<char> {
    "/safepkt-ink/examples/source"@
}

/// In-container path the verification-tools checkout is bound to.
pub open spec fn spec_target_rvt_directory() -> Seq<char> {
    "/home/rust-verification-tools"@
}

/// In-container path the verification script is bound to.
pub open spec fn spec_target_verification_script() -> Seq<char> {
    "/usr/local/bin/verify"@
}

/// The container specification derived from the lifecycle manager's
/// configuration, an already split command vector and a project identifier:
/// project sources, the verification-tools checkout and the verification
/// script are bind-mounted at fixed in-container paths, the container runs
/// on the host network inside the source directory, and the configured
/// `uid:gid` is handed in through the environment.
pub open spec fn spec_configuration(
    config: RuntimeConfigModel,
    command: Seq<Seq<char>>,
    project_id: Seq<char>,
) -> ContainerSpecModel {
    ContainerSpecModel {
        image: config.docker_image,
        mounts: seq![
            BindMountModel {
                source: spec_scaffold_directory(config.scaffold_base_directory, project_id),
                target: spec_target_source_directory(),
                consistency: "default"@,
            },
            BindMountModel {
                source: config.rvt_directory,
                target: spec_target_rvt_directory(),
                consistency: "default"@,
            },
            BindMountModel {
                source: config.verification_script,
                target: spec_target_verification_script(),
                consistency: "default"@,
            },
        ],
        network_mode: "host"@,
        environment: seq!["UID_GID="@ + config.uid_gid],
        command,
        working_dir: spec_target_source_directory(),
        auto_remove: false,
    }
}

/// Build the container specification for one project from the injected
/// configuration and the split command vector. Built fresh on every start;
/// never diffed against a previous spec.
pub fn get_configuration(
    configuration: &RuntimeConfig,
    command_parts: Vec<String>,
    project_id: &str,
) -> (r: ContainerSpec)
    ensures
        r@ == spec_configuration(configuration@, command_parts.deep_view(), project_id@),
{
    let source_mount = BindMount {
        source: format_directory_path_to_scaffold(
            configuration.scaffold_base_directory.as_str(),
            project_id,
        ),
        target: "/safepkt-ink/examples/source".to_owned(),
        consistency: "default".to_owned(),
    };
    let rvt_mount = BindMount {
        source: configuration.rvt_directory.clone(),
        target: "/home/rust-verification-tools".to_owned(),
        consistency: "default".to_owned(),
    };
    let script_mount = BindMount {
        source: configuration.verification_script.clone(),
        target: "/usr/local/bin/verify".to_owned(),
        consistency: "default".to_owned(),
    };
    let mut mounts: Vec<BindMount> = Vec::new();
    mounts.push(source_mount);
    mounts.push(rvt_mount);
    mounts.push(script_mount);
    let mut uid_gid = "UID_GID=".to_owned();
    uid_gid.append(configuration.uid_gid.as_str());
    let mut environment: Vec<String> = Vec::new();
    environment.push(uid_gid);
    let spec = ContainerSpec {
        image: configuration.docker_image.clone(),
        mounts,
        network_mode: "host".to_owned(),
        environment,
        command: command_parts,
        working_dir: "/safepkt-ink/examples/source".to_owned(),
        auto_remove: false,
    };
    proof {
        assert(spec.mounts.deep_view() =~= spec_configuration(
            configuration@,
            spec.command.deep_view(),
            project_id@,
        ).mounts);
        assert(spec.environment.deep_view() =~= spec_configuration(
            configuration@,
            spec.command.deep_view(),
            project_id@,
        ).environment);
        assert(spec@ =~= spec_configuration(configuration@, spec.command.deep_view(), project_id@));
    }
    spec
}

/// The rendered command of a plan: its step's template applied to the
/// prefixed project name, the project's bitcode artifact name, and the
/// step's registered flags.
pub open spec fn spec_plan_command(plan: PlanModel) -> Seq<char> {
    spec_command_template(
        plan.step.provider,
        spec_project_name(plan.project_id),
        spec_bitcode_filename(plan.project_id),
        plan.step.flags,
    )
}

/// The container specification a start derives from a plan.
pub open spec fn spec_plan_container_spec(
    config: RuntimeConfigModel,
    plan: PlanModel,
) -> ContainerSpecModel {
    spec_configuration(config, spec_split_spaces(spec_plan_command(plan)), plan.project_id)
}

/// The engine-state entry a successful start leaves under a plan's
/// container name.
pub open spec fn spec_started_container(
    config: RuntimeConfigModel,
    plan: PlanModel,
) -> ContainerModel {
    spec_running_container(spec_created_container(spec_plan_container_spec(config, plan)))
}

/// Remove the container carrying the given name, if one exists: lists by
/// exact name and force-removes on a match. Idempotent: the absence of a
/// matching container is success, not an error.
pub fn remove_existing_container<T: ContainerAPIClient>(
    container_api_client: &mut T,
    container_name: &str,
) -> (r: Result<(), VerificationError>)
    ensures
        r is Ok ==> final(container_api_client).containers() == old(
            container_api_client,
        ).containers().remove(container_name@),
        r matches Err(e) ==> e is RuntimeConnection || e is Engine,
{
    match container_api_client.container_exists(container_name) {
        Ok(true) => container_api_client.remove_container(container_name),
        Ok(false) => {
            proof {
                assert(container_api_client.containers() =~= container_api_client.containers()
                    .remove(container_name@));
            }
            Ok(())
        },
        Err(e) => Err(e),
    }
}

/// Render the plan's command, split it into an argument vector, build the
/// container specification, create the container under the given name and
/// start it.
///
/// On success the engine holds, under that name, a freshly created
/// container in the `running` state, built exactly from the plan's spec;
/// the name was free when the container was created.
pub fn start_container<T: ContainerAPIClient>(
    container_api_client: &mut T,
    container_name: &str,
    project_step: &StepInVerificationPlan,
    configuration: &RuntimeConfig,
) -> (r: Result<(), VerificationError>)
    ensures
        r is Ok ==> !old(container_api_client).containers().dom().contains(container_name@)
            && final(container_api_client).containers() == old(
            container_api_client,
        ).containers().insert(
            container_name@,
            spec_started_container(configuration@, project_step@),
        ),
        r matches Err(e) ==> e is RuntimeConnection || e is Engine,
{
    let prefixed_name = format_project_name(project_step.project_id().as_str());
    let bitcode_file_name = get_bitcode_filename(project_step.project_id().as_str());
    let command = project_step.step().step_provider().command_template(
        prefixed_name.as_str(),
        bitcode_file_name.as_str(),
        project_step.step().flags(),
    );
    let command_parts = split_on_spaces(command.as_str());
    let spec = get_configuration(configuration, command_parts, project_step.project_id().as_str());
    proof {
        assert(spec@ == spec_plan_container_spec(configuration@, project_step@));
    }
    match container_api_client.create_container(container_name, &spec) {
        Ok(()) => {},
        Err(e) => {
            return Err(e);
        },
    }
    let ghost after_create = container_api_client.containers();
    match container_api_client.start_container(container_name) {
        Ok(()) => {},
        Err(e) => {
            proof {
                assert(after_create.dom().contains(container_name@));
                assert(!(e is NotFound));
            }
            return Err(e);
        },
    }
    proof {
        assert(container_api_client.containers() =~= old(
            container_api_client,
        ).containers().insert(
            container_name@,
            spec_started_container(configuration@, project_step@),
        ));
    }
    Ok(())
}

} // verus!
