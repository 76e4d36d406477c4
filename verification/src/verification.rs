use vstd::prelude::*;

use crate::engine::{ContainerAPIClient, RuntimeConfig};
use crate::error::VerificationError;
use crate::follow_up::{
    inspect_container_status, spec_log_header, spec_progress_message, spec_raw_log,
    spec_annotated_log, tail_container_logs, LogBundle, ProgressReport,
};
use crate::plan::{spec_change_case, spec_container_name, which_step, PlanModel};
use crate::runtime::{
    spec_registered_steps, spec_start_effect, spec_start_message, start_running_plan,
    StartConfirmation, VerificationRuntime,
};
use crate::container::spec_started_container;
use crate::step::{spec_find_step, VerificationStepsCollection};

verus! {

/// What a caller asks to verify: a raw step token and a project identifier.
pub struct VerificationTarget {
    pub step: String,
    pub project_id: String,
}

impl VerificationTarget {
    /// Bind a raw step token and a project identifier into a target.
    pub fn new(step: String, project_id: String) -> (r: VerificationTarget)
        ensures
            r.step@ == step@,
            r.project_id@ == project_id@,
    {
        VerificationTarget { step, project_id }
    }
}

/// End-to-end flow for one verification target: resolve the step against
/// the default registry, then run, poll or report it through an engine.
pub struct SmartContractVerification {
    pub target: VerificationTarget,
}

impl SmartContractVerification {
    /// Wrap a target.
    pub fn new(target: VerificationTarget) -> (r: SmartContractVerification)
        ensures
            r.target == target,
    {
        SmartContractVerification { target }
    }

    /// The plan the target resolves to against the default registry, if its
    /// step token (normalised) names a registered step.
    pub open spec fn spec_resolved_plan(&self) -> Option<PlanModel> {
        match spec_find_step(
            spec_registered_steps(None),
            spec_change_case(self.target.step@),
        ) {
            Some(step) => Some(PlanModel { project_id: self.target.project_id@, step }),
            None => None,
        }
    }

    /// Resolve the target's step against the default registry and run it:
    /// remove any stale container, require the scaffold, create and start a
    /// fresh container. An unresolvable step token is a caller error
    /// ([`VerificationError::UnknownStep`]) and leaves the engine untouched.
    pub fn run_step<T: ContainerAPIClient>(
        &self,
        container_api_client: &mut T,
        runtime_configuration: &RuntimeConfig,
        project_directory_exists: bool,
    ) -> (r: Result<StartConfirmation, VerificationError>)
        ensures
            self.spec_resolved_plan() is None ==> (r matches Err(e) && e is UnknownStep) && final(container_api_client).containers() == old(container_api_client).containers(),
            self.spec_resolved_plan() matches Some(plan) ==> {
                &&& r matches Ok(confirmation) ==> final(container_api_client).containers()
                    == spec_start_effect(
                    old(container_api_client).containers(),
                    spec_container_name(plan.step.name, plan.project_id),
                    spec_started_container(runtime_configuration@, plan),
                ) && confirmation.container_name@ == spec_container_name(
                    plan.step.name,
                    plan.project_id,
                ) && confirmation.message@ == spec_start_message()
                &&& (r is Ok ==> project_directory_exists || plan.step.name
                    == "uploaded_sources_listing"@)
                &&& (r matches Err(e) ==> e is ScaffoldMissing || e is RuntimeConnection
                    || e is Engine)
                &&& (!project_directory_exists && plan.step.name != "uploaded_sources_listing"@
                    ==> r is Err)
            },
    {
        let steps = VerificationRuntime::<T>::build_steps(None);
        let collection = VerificationStepsCollection::new(steps);
        let plan = match which_step(
            &collection,
            self.target.step.clone(),
            self.target.project_id.clone(),
        ) {
            Ok(plan) => plan,
            Err(e) => {
                return Err(e);
            },
        };
        start_running_plan(
            container_api_client,
            runtime_configuration,
            &plan,
            project_directory_exists,
        )
    }

    /// Resolve the target's step and report its container's status. An
    /// unresolvable step token is a caller error; a resolvable one whose
    /// container does not exist reports
    /// [`VerificationError::NotFound`] ("not yet run"), never a crash.
    pub fn step_progress<T: ContainerAPIClient>(&self, container_api_client: &T) -> (r: Result<ProgressReport, VerificationError>)
        ensures
            self.spec_resolved_plan() is None ==> (r matches Err(e) && e is UnknownStep),
            self.spec_resolved_plan() matches Some(plan) ==> {
                let name = spec_container_name(plan.step.name, plan.project_id);
                &&& r matches Ok(report) ==> container_api_client.containers().dom().contains(name)
                    && report.container_name@ == name && report.docker_image@
                    == container_api_client.containers()[name].image && report.raw_status@
                    == container_api_client.containers()[name].status && report.message@
                    == spec_progress_message(
                    name,
                    container_api_client.containers()[name].image,
                    container_api_client.containers()[name].status,
                )
                &&& (r matches Err(e) ==> e is NotFound || e is RuntimeConnection || e is Engine)
                &&& (!container_api_client.containers().dom().contains(name) ==> r is Err)
            },
    {
        let steps = VerificationRuntime::<T>::build_steps(None);
        let collection = VerificationStepsCollection::new(steps);
        let plan = match which_step(
            &collection,
            self.target.step.clone(),
            self.target.project_id.clone(),
        ) {
            Ok(plan) => plan,
            Err(e) => {
                return Err(e);
            },
        };
        let container_name = plan.container_name();
        inspect_container_status(container_api_client, container_name.as_str())
    }

    /// Resolve the target's step and collect its container's logs. An
    /// unresolvable step token is a caller error; a resolvable one whose
    /// container does not exist reports
    /// [`VerificationError::NotFound`], never a crash.
    pub fn step_report<T: ContainerAPIClient>(&self, container_api_client: &T) -> (r: Result<LogBundle, VerificationError>)
        ensures
            self.spec_resolved_plan() is None ==> (r matches Err(e) && e is UnknownStep),
            self.spec_resolved_plan() matches Some(plan) ==> {
                let name = spec_container_name(plan.step.name, plan.project_id);
                &&& r matches Ok(bundle) ==> container_api_client.containers().dom().contains(name)
                    && bundle.container_name@ == name && bundle.raw_log@ == spec_raw_log(
                    container_api_client.containers()[name].logs,
                ) && bundle.messages@ == spec_log_header(name) + spec_annotated_log(
                    container_api_client.containers()[name].logs,
                )
                &&& (r matches Err(e) ==> e is NotFound || e is RuntimeConnection || e is Engine)
                &&& (!container_api_client.containers().dom().contains(name) ==> r is Err)
            },
    {
        let steps = VerificationRuntime::<T>::build_steps(None);
        let collection = VerificationStepsCollection::new(steps);
        let plan = match which_step(
            &collection,
            self.target.step.clone(),
            self.target.project_id.clone(),
        ) {
            Ok(plan) => plan,
            Err(e) => {
                return Err(e);
            },
        };
        let container_name = plan.container_name();
        tail_container_logs(container_api_client, container_name.as_str())
    }
}

} // verus!
