use vstd::prelude::*;

use crate::error::VerificationError;

verus! {

/// The command-rendering behaviour of a verification step.
///
/// Every registered step carries one of these fixed providers; rendering is
/// a pure function of the prefixed project identifier, the artifact name
/// and the optional tuning flags (see [`StepProvider::command_template`]).
#[derive(Clone, Copy, Debug, PartialEq, Eq, Structural)]
pub enum StepProvider {
    LlvmBitcodeGeneration,
    SymbolicExecution,
    ProgramVerification,
    ProgramFuzzing,
    SourceRestoration,
    UploadedSourcesListing,
}

/// Mathematical image of a [`Step`].
pub struct StepModel {
    pub name: Seq<char>,
    pub provider: StepProvider,
    pub flags: Option<Seq<char>>,
}

/// A named, registered verification stage with a pure command-rendering
/// provider and the optional raw tool flags it was registered with.
#[derive(Debug)]
pub struct Step {
    name: String,
    step_provider: StepProvider,
    flags: Option<String>,
}

impl View for Step {
    type V = StepModel;

    closed spec fn view(&self) -> StepModel {
        StepModel {
            name: self.name@,
            provider: self.step_provider,
            flags: match self.flags {
                Some(f) => Some(f@),
                None => None,
            },
        }
    }
}

/// Rendered command string of a step, as a function of the step's provider,
/// the tool-friendly (prefixed) project identifier, the artifact file name
/// and the optional tuning flags.
pub open spec fn spec_command_template(
    provider: StepProvider,
    prefixed_identifier: Seq<char>,
    artifact_name: Seq<char>,
    optional_flags: Option<Seq<char>>,
) -> Seq<char> {
    match provider {
        StepProvider::LlvmBitcodeGeneration => "cargo verify -v --bin "@ + prefixed_identifier
            + " -o "@ + artifact_name,
        StepProvider::SymbolicExecution => match optional_flags {
            Some(flags) => "klee --libc=klee "@ + flags + " "@ + artifact_name,
            None => "klee --libc=klee --silent-klee-assume --warnings-only-to-file "@
                + artifact_name,
        },
        StepProvider::ProgramVerification => "/usr/local/bin/verify "@ + prefixed_identifier
            + " "@ + artifact_name + " multisig_plain"@,
        StepProvider::ProgramFuzzing => "cargo verify --tests -v --bin "@ + prefixed_identifier
            + " -o "@ + artifact_name,
        StepProvider::SourceRestoration => "cat /safepkt-ink/examples/source/src/lib.rs"@,
        StepProvider::UploadedSourcesListing => "ls /safepkt-ink/examples/source"@,
    }
}

/// View of optional borrowed flags, as handed to command rendering.
pub open spec fn spec_opt_flags(optional_flags: Option<&String>) -> Option<Seq<char>> {
    match optional_flags {
        Some(f) => Some(f@),
        None => None,
    }
}

impl StepProvider {
    /// Render the command string for this provider.
    ///
    /// Rendering is pure: the result is a function of the three arguments
    /// alone, so repeated calls on equal inputs yield equal strings.
    pub fn command_template(
        &self,
        prefixed_identifier: &str,
        artifact_name: &str,
        optional_flags: Option<&String>,
    ) -> (r: String)
        ensures
            r@ == spec_command_template(
                *self,
                prefixed_identifier@,
                artifact_name@,
                spec_opt_flags(optional_flags),
            ),
    {
        match self {
            StepProvider::LlvmBitcodeGeneration => {
                let mut c = "cargo verify -v --bin ".to_owned();
                c.append(prefixed_identifier);
                c.append(" -o ");
                c.append(artifact_name);
                c
            },
            StepProvider::SymbolicExecution => match optional_flags {
                Some(flags) => {
                    let mut c = "klee --libc=klee ".to_owned();
                    c.append(flags.as_str());
                    c.append(" ");
                    c.append(artifact_name);
                    c
                },
                None => {
                    let mut c =
                        "klee --libc=klee --silent-klee-assume --warnings-only-to-file ".to_owned();
                    c.append(artifact_name);
                    c
                },
            },
            StepProvider::ProgramVerification => {
                let mut c = "/usr/local/bin/verify ".to_owned();
                c.append(prefixed_identifier);
                c.append(" ");
                c.append(artifact_name);
                c.append(" multisig_plain");
                c
            },
            StepProvider::ProgramFuzzing => {
                let mut c = "cargo verify --tests -v --bin ".to_owned();
                c.append(prefixed_identifier);
                c.append(" -o ");
                c.append(artifact_name);
                c
            },
            StepProvider::SourceRestoration => {
                "cat /safepkt-ink/examples/source/src/lib.rs".to_owned()
            },
            StepProvider::UploadedSourcesListing => "ls /safepkt-ink/examples/source".to_owned(),
        }
    }
}

impl Step {
    /// Bind a name, a command provider and optional raw flags into a step.
    pub fn new(name: String, step_provider: StepProvider, flags: Option<String>) -> (r: Step)
        ensures
            r@ == (StepModel { name: name@, provider: step_provider, flags: flags.deep_view() }),
    {
        Step { name, step_provider, flags }
    }

    /// The step's registered name.
    pub fn name(&self) -> (r: &String)
        ensures
            r@ == self@.name,
    {
        &self.name
    }

    /// The step's command-rendering provider.
    pub fn step_provider(&self) -> (r: &StepProvider)
        ensures
            *r == self@.provider,
    {
        &self.step_provider
    }

    /// The raw tool flags this step was registered with, if any.
    pub fn flags(&self) -> (r: Option<&String>)
        ensures
            spec_opt_flags(r) == self@.flags,
    {
        self.flags.as_ref()
    }

    /// Copy of this step, carrying the same name, provider and flags.
    pub fn duplicate(&self) -> (r: Step)
        ensures
            r@ == self@,
    {
        Step {
            name: self.name.clone(),
            step_provider: self.step_provider,
            flags: match &self.flags {
                Some(f) => Some(f.clone()),
                None => None,
            },
        }
    }
}

/// First registered step with the given name, if any.
pub open spec fn spec_find_step(steps: Seq<StepModel>, name: Seq<char>) -> Option<StepModel>
    decreases steps.len(),
{
    if steps.len() == 0 {
        None
    } else if steps[0].name == name {
        Some(steps[0])
    } else {
        spec_find_step(steps.skip(1), name)
    }
}

/// Read-only catalog of the registered verification steps.
///
/// Step names are unique in a registry built by
/// [`crate::runtime::VerificationRuntime::build_steps`]; lookup returns the
/// first step carrying the requested name.
pub struct VerificationStepsCollection {
    steps: Vec<Step>,
}

impl View for VerificationStepsCollection {
    type V = Seq<StepModel>;

    closed spec fn view(&self) -> Seq<StepModel> {
        self.steps.deep_view()
    }
}

impl DeepView for Step {
    type V = StepModel;

    open spec fn deep_view(&self) -> StepModel {
        self.view()
    }
}

impl VerificationStepsCollection {
    /// Wrap a list of registered steps into a read-only catalog.
    pub fn new(steps: Vec<Step>) -> (r: VerificationStepsCollection)
        ensures
            r@ == steps.deep_view(),
    {
        VerificationStepsCollection { steps }
    }

    /// Look a step up by its exact name.
    ///
    /// Fails with [`VerificationError::UnknownStep`] when the name is
    /// absent: a mistyped step name is a caller error, not a panic.
    pub fn step(&self, name: &String) -> (r: Result<&Step, VerificationError>)
        ensures
            match r {
                Ok(step) => spec_find_step(self@, name@) == Some(step@),
                Err(e) => spec_find_step(self@, name@) is None && (e matches
                    VerificationError::UnknownStep { step_name } && step_name@ == name@),
            },
    {
        let mut i: usize = 0;
        proof {
            assert(self@.skip(0) =~= self@);
        }
        while i < self.steps.len()
            invariant
                0 <= i <= self.steps.len(),
                self@ == self.steps.deep_view(),
                self@.len() == self.steps.len(),
                spec_find_step(self@, name@) == spec_find_step(self@.skip(i as int), name@),
            decreases self.steps.len() - i,
        {
            proof {
                assert(self@.skip(i as int)[0] == self@[i as int]);
                assert(self@[i as int] == self.steps[i as int].deep_view());
            }
            if name.eq(self.steps[i].name()) {
                proof {
                    assert(self@.skip(i as int)[0].name == name@);
                    assert(spec_find_step(self@.skip(i as int), name@) == Some(self@[i as int]));
                }
                return Ok(&self.steps[i]);
            }
            proof {
                assert(self@.skip(i as int)[0].name != name@);
                assert(self@.skip(i as int).skip(1) =~= self@.skip(i as int + 1));
                assert(spec_find_step(self@.skip(i as int), name@) == spec_find_step(
                    self@.skip(i as int + 1),
                    name@,
                ));
            }
            i += 1;
        }
        proof {
            assert(self@.skip(i as int) =~= Seq::<StepModel>::empty());
        }
        Err(VerificationError::UnknownStep { step_name: name.clone() })
    }
}

} // verus!
