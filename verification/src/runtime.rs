use vstd::prelude::*;

use crate::container::{remove_existing_container, spec_started_container, start_container};
use crate::engine::{ContainerAPIClient, ContainerModel, RuntimeConfig};
use crate::error::VerificationError;
use crate::follow_up::{
    inspect_container_status, spec_log_header, spec_progress_message, spec_raw_log,
    spec_annotated_log, tail_container_logs, LogBundle, ProgressReport,
};
use crate::plan::{spec_container_name, StepInVerificationPlan};
use crate::step::{Step, StepModel, StepProvider, VerificationStepsCollection};

verus! {

/// Names of the steps [`VerificationRuntime::build_steps`] registers, in
/// registration order.
pub open spec fn spec_registered_names() -> Seq<Seq<char>> {
    seq![
        "llvm_bitcode_generation"@,
        "symbolic_execution"@,
        "program_verification"@,
        "program_fuzzing"@,
        "source_restoration"@,
        "uploaded_sources_listing"@,
    ]
}

/// Flag normalisation applied by the registry: empty flags mean "no flags",
/// so no step ever receives an empty flag token.
pub open spec fn spec_normalized_flags(flags: Option<Seq<char>>) -> Option<Seq<char>> {
    match flags {
        Some(f) => if f.len() > 0 {
            Some(f)
        } else {
            None
        },
        None => None,
    }
}

/// The full step catalog the registry is built with: the fixed set of six
/// steps, where only the flag-accepting ones (symbolic execution, program
/// verification, program fuzzing) carry the normalised flags.
pub open spec fn spec_registered_steps(flags: Option<Seq<char>>) -> Seq<StepModel> {
    seq![
        StepModel {
            name: "llvm_bitcode_generation"@,
            provider: StepProvider::LlvmBitcodeGeneration,
            flags: None,
        },
        StepModel {
            name: "symbolic_execution"@,
            provider: StepProvider::SymbolicExecution,
            flags: spec_normalized_flags(flags),
        },
        StepModel {
            name: "program_verification"@,
            provider: StepProvider::ProgramVerification,
            flags: spec_normalized_flags(flags),
        },
        StepModel {
            name: "program_fuzzing"@,
            provider: StepProvider::ProgramFuzzing,
            flags: spec_normalized_flags(flags),
        },
        StepModel {
            name: "source_restoration"@,
            provider: StepProvider::SourceRestoration,
            flags: None,
        },
        StepModel {
            name: "uploaded_sources_listing"@,
            provider: StepProvider::UploadedSourcesListing,
            flags: None,
        },
    ]
}

/// View of an optional borrowed string slice.
pub open spec fn spec_opt_str(flags: Option<&str>) -> Option<Seq<char>> {
    match flags {
        Some(f) => Some(f@),
        None => None,
    }
}

/// The engine state a successful start leaves behind: whatever container
/// carried the plan's name is gone, and exactly one freshly started
/// container stands under that name.
pub open spec fn spec_start_effect(
    containers: Map<Seq<char>, ContainerModel>,
    container_name: Seq<char>,
    started: ContainerModel,
) -> Map<Seq<char>, ContainerModel> {
    containers.remove(container_name).insert(container_name, started)
}

/// Starting a plan is idempotent in effect: a second start from the state a
/// first start produced yields exactly that state again, and either way the
/// engine holds exactly one container under the plan's name.
pub proof fn lemma_start_running_idempotent(
    containers: Map<Seq<char>, ContainerModel>,
    container_name: Seq<char>,
    started: ContainerModel,
)
    ensures
        spec_start_effect(
            spec_start_effect(containers, container_name, started),
            container_name,
            started,
        ) == spec_start_effect(containers, container_name, started),
        spec_start_effect(containers, container_name, started).dom().contains(container_name),
        spec_start_effect(containers, container_name, started)[container_name] == started,
        spec_start_effect(containers, container_name, started).dom() =~= containers.dom().insert(
            container_name,
        ),
{
    assert(spec_start_effect(
        spec_start_effect(containers, container_name, started),
        container_name,
        started,
    ) =~= spec_start_effect(containers, container_name, started));
}

/// The registered step names are pairwise distinct: the registry holds no
/// duplicate keys and [`VerificationRuntime::steps_names`] lists each
/// exactly once.
pub proof fn lemma_registered_names_distinct()
    ensures
        forall|i: int, j: int|
            0 <= i < j < spec_registered_names().len() ==> spec_registered_names()[i]
                != spec_registered_names()[j],
{
    reveal_strlit("llvm_bitcode_generation");
    reveal_strlit("symbolic_execution");
    reveal_strlit("program_verification");
    reveal_strlit("program_fuzzing");
    reveal_strlit("source_restoration");
    reveal_strlit("uploaded_sources_listing");
    assert forall|i: int, j: int|
        0 <= i < j < spec_registered_names().len() implies spec_registered_names()[i]
        != spec_registered_names()[j] by {
        let names = spec_registered_names();
        assert(names[0] == "llvm_bitcode_generation"@);
        assert(names[1] == "symbolic_execution"@);
        assert(names[2] == "program_verification"@);
        assert(names[3] == "program_fuzzing"@);
        assert(names[4] == "source_restoration"@);
        assert(names[5] == "uploaded_sources_listing"@);
        assert("llvm_bitcode_generation"@.len() == 23);
        assert("symbolic_execution"@.len() == 18);
        assert("program_verification"@.len() == 20);
        assert("program_fuzzing"@.len() == 15);
        assert("source_restoration"@.len() == 18);
        assert("uploaded_sources_listing"@.len() == 24);
        assert("symbolic_execution"@[1] == 'y');
        assert("source_restoration"@[1] == 'o');
    }
}

/// The registry and the advertised step names agree: the catalog built by
/// [`VerificationRuntime::build_steps`] registers, position by position,
/// exactly the names [`VerificationRuntime::steps_names`] returns, whatever
/// flags the catalog was built with.
pub proof fn lemma_steps_names_match_registry(flags: Option<Seq<char>>)
    ensures
        spec_registered_steps(flags).len() == spec_registered_names().len(),
        forall|i: int|
            0 <= i < spec_registered_names().len() ==> spec_registered_steps(flags)[i].name
                == spec_registered_names()[i],
{
}

/// Confirmation handed back by a successful start: the resolved container
/// name and a human-readable message.
#[derive(Debug)]
pub struct StartConfirmation {
    pub container_name: String,
    pub message: String,
}

/// Message of a successful start confirmation.
pub open spec fn spec_start_message() -> Seq<char> {
    "Rust verification tools container started successfully."@
}

/// Message of a successful stop.
pub open spec fn spec_stop_message(project_id: Seq<char>) -> Seq<char> {
    "Removed running container successfully for project with id \""@ + project_id + "\"."@
}

/// The verification runtime facade: one plan, the step registry, the
/// injected lifecycle configuration, and the container engine the four
/// operations (start, stop, progress, report) act through.
///
/// The runtime holds no state of record of its own: everything durable is
/// the engine's bookkeeping, addressed solely by the plan's deterministic
/// container name.
pub struct VerificationRuntime<T: ContainerAPIClient> {
    pub container_api_client: T,
    pub step_in_verification_plan: StepInVerificationPlan,
    pub verification_step_collection: VerificationStepsCollection,
    pub runtime_configuration: RuntimeConfig,
}

impl<T: ContainerAPIClient> VerificationRuntime<T> {
    /// The container name every operation of this runtime addresses.
    pub open spec fn spec_plan_container_name(&self) -> Seq<char> {
        spec_container_name(
            self.step_in_verification_plan@.step.name,
            self.step_in_verification_plan@.project_id,
        )
    }

    /// Bind an engine, a lifecycle configuration, a plan and the registered
    /// steps into a runtime.
    pub fn new(
        container_api_client: T,
        runtime_configuration: RuntimeConfig,
        step: StepInVerificationPlan,
        steps: Vec<Step>,
    ) -> (r: Self)
        ensures
            r.container_api_client == container_api_client,
            r.runtime_configuration == runtime_configuration,
            r.step_in_verification_plan == step,
            r.verification_step_collection@ == steps.deep_view(),
    {
        VerificationRuntime {
            container_api_client,
            step_in_verification_plan: step,
            verification_step_collection: VerificationStepsCollection::new(steps),
            runtime_configuration,
        }
    }

    /// Build the full step catalog. Empty flags are normalised to "no
    /// flags", so no step silently receives an empty flag token; only the
    /// flag-accepting steps receive the flags at all.
    pub fn build_steps(flags: Option<&str>) -> (r: Vec<Step>)
        ensures
            r.deep_view() == spec_registered_steps(spec_opt_str(flags)),
    {
        let normalized: Option<String> = match flags {
            Some(f) => {
                if f.unicode_len() > 0 {
                    Some(f.to_owned())
                } else {
                    None
                }
            },
            None => None,
        };
        let mut steps: Vec<Step> = Vec::new();
        steps.push(
            Step::new(
                "llvm_bitcode_generation".to_owned(),
                StepProvider::LlvmBitcodeGeneration,
                None,
            ),
        );
        steps.push(
            Step::new(
                "symbolic_execution".to_owned(),
                StepProvider::SymbolicExecution,
                duplicate_flags(&normalized),
            ),
        );
        steps.push(
            Step::new(
                "program_verification".to_owned(),
                StepProvider::ProgramVerification,
                duplicate_flags(&normalized),
            ),
        );
        steps.push(
            Step::new(
                "program_fuzzing".to_owned(),
                StepProvider::ProgramFuzzing,
                duplicate_flags(&normalized),
            ),
        );
        steps.push(
            Step::new("source_restoration".to_owned(), StepProvider::SourceRestoration, None),
        );
        steps.push(
            Step::new(
                "uploaded_sources_listing".to_owned(),
                StepProvider::UploadedSourcesListing,
                None,
            ),
        );
        proof {
            assert(steps.deep_view() =~= spec_registered_steps(spec_opt_str(flags)));
        }
        steps
    }

    /// The names of every registered step, in registration order, each
    /// exactly once.
    pub fn steps_names() -> (r: Vec<&'static str>)
        ensures
            r.deep_view() == spec_registered_names(),
    {
        let mut names: Vec<&'static str> = Vec::new();
        names.push("llvm_bitcode_generation");
        names.push("symbolic_execution");
        names.push("program_verification");
        names.push("program_fuzzing");
        names.push("source_restoration");
        names.push("uploaded_sources_listing");
        proof {
            assert(names.deep_view() =~= spec_registered_names());
        }
        names
    }

    /// The engine this runtime acts through.
    pub fn container_api_client(&self) -> (r: &T)
        ensures
            *r == self.container_api_client,
    {
        &self.container_api_client
    }

    /// The plan's project identifier.
    pub fn project_id(&self) -> (r: &str)
        ensures
            r@ == self.step_in_verification_plan@.project_id,
    {
        self.step_in_verification_plan.project_id().as_str()
    }

    /// The plan's step.
    pub fn project_step(&self) -> (r: &Step)
        ensures
            r@ == self.step_in_verification_plan@.step,
    {
        self.step_in_verification_plan.step()
    }

    /// The plan this runtime addresses.
    pub fn step_in_verification_plan(&self) -> (r: &StepInVerificationPlan)
        ensures
            *r == self.step_in_verification_plan,
    {
        &self.step_in_verification_plan
    }

    /// The step registry this runtime was built with.
    pub fn verification_step_collection(&self) -> (r: &VerificationStepsCollection)
        ensures
            *r == self.verification_step_collection,
    {
        &self.verification_step_collection
    }

    /// Run the plan's step: remove any stale container under the plan's
    /// name, require the project scaffold (except for the step that only
    /// lists uploaded sources), then create and start a fresh container.
    ///
    /// `project_directory_exists` is the scaffolding collaborator's
    /// postcondition, checked by the caller on the file system. When it
    /// does not hold the operation fails with
    /// [`VerificationError::ScaffoldMissing`] and creates no container;
    /// scaffolding is never triggered implicitly.
    pub fn start_running(&mut self, project_directory_exists: bool) -> (r: Result<StartConfirmation, VerificationError>)
        ensures
            final(self).step_in_verification_plan == old(self).step_in_verification_plan,
            final(self).runtime_configuration == old(self).runtime_configuration,
            final(self).verification_step_collection == old(self).verification_step_collection,
            r matches Ok(confirmation) ==> final(self).container_api_client.containers()
                == spec_start_effect(
                old(self).container_api_client.containers(),
                old(self).spec_plan_container_name(),
                spec_started_container(
                    old(self).runtime_configuration@,
                    old(self).step_in_verification_plan@,
                ),
            ) && confirmation.container_name@ == old(self).spec_plan_container_name()
                && confirmation.message@ == spec_start_message(),
            r is Ok ==> project_directory_exists || old(self).step_in_verification_plan@.step.name
                == "uploaded_sources_listing"@,
            r matches Err(e) ==> e is ScaffoldMissing || e is RuntimeConnection || e is Engine,
            r matches Err(e) ==> (e matches VerificationError::ScaffoldMissing { project_id }
                ==> !project_directory_exists && final(self).container_api_client.containers()
                == old(self).container_api_client.containers().remove(
                old(self).spec_plan_container_name(),
            ) && project_id@ == old(self).step_in_verification_plan@.project_id),
            !project_directory_exists && old(self).step_in_verification_plan@.step.name
                != "uploaded_sources_listing"@ ==> r is Err,
    {
        start_running_plan(
            &mut self.container_api_client,
            &self.runtime_configuration,
            &self.step_in_verification_plan,
            project_directory_exists,
        )
    }

    /// Force-remove the plan's container and confirm. Idempotent: succeeds
    /// also when no container stands under the plan's name.
    pub fn stop_running(&mut self) -> (r: Result<String, VerificationError>)
        ensures
            final(self).step_in_verification_plan == old(self).step_in_verification_plan,
            final(self).runtime_configuration == old(self).runtime_configuration,
            final(self).verification_step_collection == old(self).verification_step_collection,
            r matches Ok(message) ==> final(self).container_api_client.containers() == old(self).container_api_client.containers().remove(old(self).spec_plan_container_name())
                && message@ == spec_stop_message(old(self).step_in_verification_plan@.project_id),
            r matches Err(e) ==> e is RuntimeConnection || e is Engine,
    {
        let container_name = self.step_in_verification_plan.container_name();
        match remove_existing_container(&mut self.container_api_client, container_name.as_str()) {
            Ok(()) => {},
            Err(e) => {
                return Err(e);
            },
        }
        let mut message =
            "Removed running container successfully for project with id \"".to_owned();
        message.append(self.step_in_verification_plan.project_id().as_str());
        message.append("\".");
        Ok(message)
    }

    /// Inspect the plan's container and report its status. On a plan that
    /// was never started this is [`VerificationError::NotFound`] ("not yet
    /// run"), never a crash.
    pub fn get_progress(&self) -> (r: Result<ProgressReport, VerificationError>)
        ensures
            r matches Ok(report) ==> self.container_api_client.containers().dom().contains(
                self.spec_plan_container_name(),
            ) && report.container_name@ == self.spec_plan_container_name() && report.docker_image@
                == self.container_api_client.containers()[self.spec_plan_container_name()].image
                && report.raw_status@ == self.container_api_client.containers()[
                self.spec_plan_container_name()
            ].status && report.message@ == spec_progress_message(
                self.spec_plan_container_name(),
                self.container_api_client.containers()[self.spec_plan_container_name()].image,
                self.container_api_client.containers()[self.spec_plan_container_name()].status,
            ),
            r matches Err(e) ==> e is NotFound || e is RuntimeConnection || e is Engine,
            (r matches Err(e) && e is NotFound) ==> !self.container_api_client.containers().dom()
                .contains(self.spec_plan_container_name()),
            !self.container_api_client.containers().dom().contains(self.spec_plan_container_name())
                ==> r is Err,
    {
        let container_name = self.step_in_verification_plan.container_name();
        inspect_container_status(&self.container_api_client, container_name.as_str())
    }

    /// Collect the plan's container logs into a log bundle. On a plan that
    /// was never started this is [`VerificationError::NotFound`], never a
    /// crash.
    pub fn get_report(&self) -> (r: Result<LogBundle, VerificationError>)
        ensures
            r matches Ok(bundle) ==> self.container_api_client.containers().dom().contains(
                self.spec_plan_container_name(),
            ) && bundle.container_name@ == self.spec_plan_container_name() && bundle.raw_log@
                == spec_raw_log(
                self.container_api_client.containers()[self.spec_plan_container_name()].logs,
            ) && bundle.messages@ == spec_log_header(self.spec_plan_container_name())
                + spec_annotated_log(
                self.container_api_client.containers()[self.spec_plan_container_name()].logs,
            ),
            r matches Err(e) ==> e is NotFound || e is RuntimeConnection || e is Engine,
            (r matches Err(e) && e is NotFound) ==> !self.container_api_client.containers().dom()
                .contains(self.spec_plan_container_name()),
            !self.container_api_client.containers().dom().contains(self.spec_plan_container_name())
                ==> r is Err,
    {
        let container_name = self.step_in_verification_plan.container_name();
        tail_container_logs(&self.container_api_client, container_name.as_str())
    }
}

/// Copy optional flags; the copy carries the same characters.
fn duplicate_flags(flags: &Option<String>) -> (r: Option<String>)
    ensures
        r.deep_view() == flags.deep_view(),
{
    match flags {
        Some(f) => Some(f.clone()),
        None => None,
    }
}

/// Run one plan's step against an engine: remove any stale container under
/// the plan's deterministic name, require the project scaffold (except for
/// the step that only lists uploaded sources), then build the container
/// specification, create the container and start it.
pub fn start_running_plan<T: ContainerAPIClient>(
    container_api_client: &mut T,
    runtime_configuration: &RuntimeConfig,
    project_step: &StepInVerificationPlan,
    project_directory_exists: bool,
) -> (r: Result<StartConfirmation, VerificationError>)
    ensures
        r matches Ok(confirmation) ==> final(container_api_client).containers()
            == spec_start_effect(
            old(container_api_client).containers(),
            spec_container_name(project_step@.step.name, project_step@.project_id),
            spec_started_container(runtime_configuration@, project_step@),
        ) && confirmation.container_name@ == spec_container_name(
            project_step@.step.name,
            project_step@.project_id,
        ) && confirmation.message@ == spec_start_message(),
        r is Ok ==> project_directory_exists || project_step@.step.name
            == "uploaded_sources_listing"@,
        r matches Err(e) ==> e is ScaffoldMissing || e is RuntimeConnection || e is Engine,
        r matches Err(e) ==> (e matches VerificationError::ScaffoldMissing { project_id }
            ==> !project_directory_exists && final(container_api_client).containers()
            == old(container_api_client).containers().remove(
            spec_container_name(project_step@.step.name, project_step@.project_id),
        ) && project_id@ == project_step@.project_id),
        !project_directory_exists && project_step@.step.name != "uploaded_sources_listing"@
            ==> r is Err,
{
    let container_name = project_step.container_name();
    match remove_existing_container(container_api_client, container_name.as_str()) {
        Ok(()) => {},
        Err(e) => {
            return Err(e);
        },
    }
    let listing: String = "uploaded_sources_listing".to_owned();
    if !project_step.step().name().eq(&listing) && !project_directory_exists {
        return Err(
            VerificationError::ScaffoldMissing { project_id: project_step.project_id().clone() },
        );
    }
    match start_container(
        container_api_client,
        container_name.as_str(),
        project_step,
        runtime_configuration,
    ) {
        Ok(()) => Ok(
            StartConfirmation {
                container_name,
                message: "Rust verification tools container started successfully.".to_owned(),
            },
        ),
        Err(e) => Err(e),
    }
}

} // verus!
