use vstd::prelude::*;

use crate::error::VerificationError;
use crate::step::{spec_find_step, Step, StepModel, VerificationStepsCollection};

verus! {

/// Normalisation applied to a raw step token: every hyphen becomes an
/// underscore, so tokens taken from URL paths match the registry keys.
pub open spec fn spec_change_case(s: Seq<char>) -> Seq<char> {
    Seq::new(s.len(), |i: int| if s[i] == '-' { '_' } else { s[i] })
}

/// Normalise a raw step token (hyphens to underscores) to match the
/// registry keys. Pure and side-effect-free.
pub fn change_case(step: String) -> (r: String)
    ensures
        r@ == spec_change_case(step@),
{
    let n = step.as_str().unicode_len();
    let mut normalized = String::new();
    let mut i: usize = 0;
    while i < n
        invariant
            0 <= i <= n,
            n == step@.len(),
            normalized@ == spec_change_case(step@.take(i as int)),
        decreases n - i,
    {
        let c = step.as_str().get_char(i);
        if c == '-' {
            normalized.append("_");
            proof {
                reveal_strlit("_");
            }
        } else {
            let piece = step.as_str().substring_char(i, i + 1);
            normalized.append(piece);
        }
        proof {
            assert(normalized@ =~= spec_change_case(step@.take(i as int + 1)));
        }
        i += 1;
    }
    proof {
        assert(step@.take(n as int) =~= step@);
    }
    normalized
}

/// Deterministic container name of a plan: the step name and the project
/// identifier joined by a hyphen.
pub open spec fn spec_container_name(step_name: Seq<char>, project_id: Seq<char>) -> Seq<char> {
    step_name + "-"@ + project_id
}

/// Mathematical image of a [`StepInVerificationPlan`].
pub struct PlanModel {
    pub project_id: Seq<char>,
    pub step: StepModel,
}

/// A verification step bound to a concrete project: the single addressable
/// unit of the core.
///
/// A plan's container name is a deterministic function of its step name and
/// project identifier, so two plans over the same pair always address the
/// same container.
pub struct StepInVerificationPlan {
    pub project_id: String,
    pub step: Step,
}

impl View for StepInVerificationPlan {
    type V = PlanModel;

    open spec fn view(&self) -> PlanModel {
        PlanModel { project_id: self.project_id@, step: self.step@ }
    }
}

impl StepInVerificationPlan {
    /// Bind a step and a project identifier into a plan.
    pub fn new(project_id: String, step: Step) -> (r: StepInVerificationPlan)
        ensures
            r@.project_id == project_id@,
            r@.step == step@,
    {
        StepInVerificationPlan { project_id, step }
    }

    /// The plan's project identifier.
    pub fn project_id(&self) -> (r: &String)
        ensures
            r@ == self@.project_id,
    {
        &self.project_id
    }

    /// The plan's step.
    pub fn step(&self) -> (r: &Step)
        ensures
            r@ == self@.step,
    {
        &self.step
    }

    /// The name of the container this plan addresses.
    ///
    /// Pure: repeated calls on the same plan return the same name.
    pub fn container_name(&self) -> (r: String)
        ensures
            r@ == spec_container_name(self@.step.name, self@.project_id),
    {
        let mut name = self.step.name().clone();
        name.append("-");
        name.append(self.project_id.as_str());
        name
    }
}

/// Container names are pure and stable: any two rendered names for equal
/// (step name, project identifier) pairs are equal, so every lifecycle
/// operation of a plan addresses one container.
pub proof fn lemma_container_name_deterministic(
    step_name: Seq<char>,
    project_id: Seq<char>,
    first: Seq<char>,
    second: Seq<char>,
)
    requires
        first == spec_container_name(step_name, project_id),
        second == spec_container_name(step_name, project_id),
    ensures
        first == second,
{
}

/// Resolve a raw step token against the registry and bind the result to a
/// project: normalises the token, looks the step up, and forms the plan.
///
/// Pure and side-effect-free; an absent step name is a caller error
/// ([`VerificationError::UnknownStep`]), never a panic.
pub fn which_step(
    steps: &VerificationStepsCollection,
    step_param: String,
    project_id: String,
) -> (r: Result<StepInVerificationPlan, VerificationError>)
    ensures
        match r {
            Ok(plan) => spec_find_step(steps@, spec_change_case(step_param@)) == Some(plan@.step)
                && plan@.project_id == project_id@,
            Err(e) => spec_find_step(steps@, spec_change_case(step_param@)) is None && (e matches
                VerificationError::UnknownStep { step_name } && step_name@ == spec_change_case(
                step_param@,
            )),
        },
{
    let step_name = change_case(step_param);
    match steps.step(&step_name) {
        Ok(step) => Ok(StepInVerificationPlan::new(project_id, step.duplicate())),
        Err(e) => Err(e),
    }
}

} // verus!
