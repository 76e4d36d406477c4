use safepkt_backend::container::{format_project_name, get_bitcode_filename, get_configuration, split_on_spaces};
use safepkt_backend::engine::RuntimeConfig;
use safepkt_backend::error::VerificationError;
use safepkt_backend::memory::InMemoryContainerAPIClient;
use safepkt_backend::plan::{change_case, which_step, StepInVerificationPlan};
use safepkt_backend::step::{Step, StepProvider, VerificationStepsCollection};
use safepkt_backend::runtime::VerificationRuntime;

#[test]
fn it_normalizes_step_tokens() {
    assert_eq!(
        "symbolic_execution",
        change_case("symbolic-execution".to_string())
    );
    assert_eq!("already_normal", change_case("already_normal".to_string()));
    assert_eq!("", change_case("".to_string()));
    assert_eq!("___", change_case("---".to_string()));
}

#[test]
fn it_lists_all_registered_step_names() {
    let names = VerificationRuntime::<InMemoryContainerAPIClient>::steps_names();
    let expected = [
        "llvm_bitcode_generation",
        "symbolic_execution",
        "program_verification",
        "program_fuzzing",
        "source_restoration",
        "uploaded_sources_listing",
    ];
    assert_eq!(expected.len(), names.len());
    for name in expected.iter() {
        assert!(names.contains(name));
    }
    for i in 0..names.len() {
        for j in (i + 1)..names.len() {
            assert_ne!(names[i], names[j]);
        }
    }
}

#[test]
fn it_builds_the_step_registry_with_normalized_flags() {
    let steps = VerificationRuntime::<InMemoryContainerAPIClient>::build_steps(Some(
        "--max-time=10",
    ));
    let collection = VerificationStepsCollection::new(steps);
    let step = collection.step(&"symbolic_execution".to_string()).unwrap();
    assert_eq!("symbolic_execution", step.name());
    assert_eq!("--max-time=10", step.flags().unwrap());
    let neutral = collection.step(&"source_restoration".to_string()).unwrap();
    assert!(neutral.flags().is_none());
}

#[test]
fn it_normalizes_empty_flags_to_no_flags() {
    let steps = VerificationRuntime::<InMemoryContainerAPIClient>::build_steps(Some(""));
    let collection = VerificationStepsCollection::new(steps);
    let step = collection.step(&"symbolic_execution".to_string()).unwrap();
    assert!(step.flags().is_none());
}

#[test]
fn it_fails_with_unknown_step_on_absent_names() {
    let steps = VerificationRuntime::<InMemoryContainerAPIClient>::build_steps(None);
    let collection = VerificationStepsCollection::new(steps);
    let err = collection.step(&"static_analysis".to_string()).unwrap_err();
    assert!(matches!(
        err,
        VerificationError::UnknownStep { ref step_name } if step_name == "static_analysis"
    ));
}

#[test]
fn it_resolves_a_plan_from_a_raw_step_token() {
    // A registry holding only the two steps this scenario speaks of.
    let steps = vec![
        Step::new(
            "symbolic_execution".to_string(),
            StepProvider::SymbolicExecution,
            None,
        ),
        Step::new(
            "program_verification".to_string(),
            StepProvider::ProgramVerification,
            None,
        ),
    ];
    let collection = VerificationStepsCollection::new(steps);
    let plan = which_step(
        &collection,
        "symbolic-execution".to_string(),
        "abc123".to_string(),
    )
    .unwrap();
    assert_eq!("symbolic_execution-abc123", plan.container_name());
    assert_eq!("abc123", plan.project_id());
    assert_eq!("symbolic_execution", plan.step().name());
}

#[test]
fn it_derives_stable_container_names() {
    let step = Step::new(
        "program_verification".to_string(),
        StepProvider::ProgramVerification,
        None,
    );
    let plan = StepInVerificationPlan::new("abc123".to_string(), step);
    let first = plan.container_name();
    let second = plan.container_name();
    assert_eq!(first, second);
    assert_eq!("program_verification-abc123", first);
}

#[test]
fn it_renders_command_templates_exactly() {
    let prefixed = format_project_name("abc123");
    assert_eq!("safepkt_abc123", prefixed);
    let artifact = get_bitcode_filename("abc123");
    assert_eq!("abc123.bc", artifact);

    assert_eq!(
        "cargo verify -v --bin safepkt_abc123 -o abc123.bc",
        StepProvider::LlvmBitcodeGeneration.command_template(&prefixed, &artifact, None)
    );
    assert_eq!(
        "klee --libc=klee --silent-klee-assume --warnings-only-to-file abc123.bc",
        StepProvider::SymbolicExecution.command_template(&prefixed, &artifact, None)
    );
    let flags = "--max-time=10".to_string();
    assert_eq!(
        "klee --libc=klee --max-time=10 abc123.bc",
        StepProvider::SymbolicExecution.command_template(&prefixed, &artifact, Some(&flags))
    );
    assert_eq!(
        "/usr/local/bin/verify safepkt_abc123 abc123.bc multisig_plain",
        StepProvider::ProgramVerification.command_template(&prefixed, &artifact, None)
    );
    assert_eq!(
        "cat /safepkt-ink/examples/source/src/lib.rs",
        StepProvider::SourceRestoration.command_template(&prefixed, &artifact, None)
    );
}

#[test]
fn it_renders_commands_deterministically() {
    let flags = "--max-time=10".to_string();
    let first =
        StepProvider::SymbolicExecution.command_template("safepkt_x", "x.bc", Some(&flags));
    let second =
        StepProvider::SymbolicExecution.command_template("safepkt_x", "x.bc", Some(&flags));
    assert_eq!(first, second);
    assert_eq!(split_on_spaces(&first), split_on_spaces(&second));
}

#[test]
fn it_splits_commands_on_single_spaces() {
    assert_eq!(
        vec!["cargo", "verify", "-v"],
        split_on_spaces("cargo verify -v")
    );
    assert_eq!(vec![""], split_on_spaces(""));
    assert_eq!(vec!["a", "", "b"], split_on_spaces("a  b"));
    assert_eq!(vec!["", "a", ""], split_on_spaces(" a "));
}

#[test]
fn it_builds_the_container_specification_from_the_configuration() {
    let configuration = RuntimeConfig::new(
        "rvt-image".to_string(),
        "/host/rvt".to_string(),
        "/host/verification-script".to_string(),
        "1000:1000".to_string(),
        "/tmp".to_string(),
    );
    let command = split_on_spaces("cargo verify -v");
    let spec = get_configuration(&configuration, command, "abc123");
    assert_eq!("rvt-image", spec.image);
    assert_eq!("host", spec.network_mode);
    assert_eq!("/safepkt-ink/examples/source", spec.working_dir);
    assert!(!spec.auto_remove);
    assert_eq!(vec!["UID_GID=1000:1000"], spec.environment);
    assert_eq!(vec!["cargo", "verify", "-v"], spec.command);
    assert_eq!(3, spec.mounts.len());
    assert_eq!("/tmp/abc123", spec.mounts[0].source);
    assert_eq!("/safepkt-ink/examples/source", spec.mounts[0].target);
    assert_eq!("/host/rvt", spec.mounts[1].source);
    assert_eq!("/home/rust-verification-tools", spec.mounts[1].target);
    assert_eq!("/host/verification-script", spec.mounts[2].source);
    assert_eq!("/usr/local/bin/verify", spec.mounts[2].target);
    assert_eq!("default", spec.mounts[0].consistency);
}
