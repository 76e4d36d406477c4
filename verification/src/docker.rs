use vstd::prelude::*;

use crate::plan::{spec_container_name, StepInVerificationPlan};

verus! {

/// Thin holder for a concrete container-engine connection (a Docker
/// socket handle, say), together with the naming scheme every lifecycle
/// operation uses.
///
/// The connection itself is opaque to this crate: a host program
/// instantiates `C` with its engine handle and performs the engine calls,
/// while the deterministic naming below is shared, verified logic.
pub struct DockerContainerAPIClient<C> {
    client: C,
}

impl<C> DockerContainerAPIClient<C> {
    /// The held connection, for specification purposes.
    pub closed spec fn spec_client(&self) -> C {
        self.client
    }

    /// Wrap an already established engine connection.
    pub fn new(client: C) -> (r: Self)
        ensures
            r.spec_client() == client,
    {
        DockerContainerAPIClient { client }
    }

    /// The held connection.
    pub fn client(&self) -> (r: &C)
        ensures
            *r == self.spec_client(),
    {
        &self.client
    }

    /// The deterministic container name of a plan: the step name and the
    /// project identifier joined by a hyphen. Pure and stable across
    /// repeated calls.
    pub fn format_container_name_for_step_in_verification_plan(
        &self,
        project_step: &StepInVerificationPlan,
    ) -> (r: String)
        ensures
            r@ == spec_container_name(project_step@.step.name, project_step@.project_id),
    {
        project_step.container_name()
    }
}

} // verus!
