use safepkt_backend::engine::{ContainerAPIClient, LogOrigin, RuntimeConfig};
use safepkt_backend::error::VerificationError;
use safepkt_backend::memory::InMemoryContainerAPIClient;
use safepkt_backend::plan::StepInVerificationPlan;
use safepkt_backend::step::{Step, StepProvider};
use safepkt_backend::runtime::VerificationRuntime;

fn test_configuration() -> RuntimeConfig {
    RuntimeConfig::new(
        "rvt-image".to_string(),
        "/host/rvt".to_string(),
        "/host/verification-script".to_string(),
        "1000:1000".to_string(),
        "/tmp".to_string(),
    )
}

fn runtime_for(
    step_name: &str,
    provider: StepProvider,
    project_id: &str,
) -> VerificationRuntime<InMemoryContainerAPIClient> {
    let step = Step::new(step_name.to_string(), provider, None);
    let plan = StepInVerificationPlan::new(project_id.to_string(), step);
    let steps = VerificationRuntime::<InMemoryContainerAPIClient>::build_steps(None);
    VerificationRuntime::new(
        InMemoryContainerAPIClient::new(),
        test_configuration(),
        plan,
        steps,
    )
}

#[test]
fn it_starts_a_container_for_a_plan() {
    let mut runtime = runtime_for(
        "program_verification",
        StepProvider::ProgramVerification,
        "abc123",
    );
    let confirmation = runtime.start_running(true).unwrap();
    assert_eq!("program_verification-abc123", confirmation.container_name);
    assert_eq!(
        "Rust verification tools container started successfully.",
        confirmation.message
    );
    assert_eq!(1, runtime.container_api_client.container_count());
    let exists = runtime
        .container_api_client
        .container_exists("program_verification-abc123")
        .unwrap();
    assert!(exists);
}

#[test]
fn it_starts_idempotently() {
    let mut runtime = runtime_for(
        "program_verification",
        StepProvider::ProgramVerification,
        "abc123",
    );
    runtime.start_running(true).unwrap();
    runtime.start_running(true).unwrap();
    // Exactly one live container stands under the plan's name.
    assert_eq!(1, runtime.container_api_client.container_count());
    let progress = runtime.get_progress().unwrap();
    assert_eq!("running", progress.raw_status);
}

#[test]
fn it_requires_the_scaffold_before_starting() {
    let mut runtime = runtime_for(
        "program_verification",
        StepProvider::ProgramVerification,
        "abc123",
    );
    let err = runtime.start_running(false).unwrap_err();
    assert!(matches!(
        err,
        VerificationError::ScaffoldMissing { ref project_id } if project_id == "abc123"
    ));
    // No container was created.
    assert_eq!(0, runtime.container_api_client.container_count());
}

#[test]
fn it_lists_uploaded_sources_without_a_scaffold() {
    let mut runtime = runtime_for(
        "uploaded_sources_listing",
        StepProvider::UploadedSourcesListing,
        "abc123",
    );
    let confirmation = runtime.start_running(false).unwrap();
    assert_eq!(
        "uploaded_sources_listing-abc123",
        confirmation.container_name
    );
    assert_eq!(1, runtime.container_api_client.container_count());
}

#[test]
fn it_reports_not_found_before_the_first_start() {
    let runtime = runtime_for(
        "program_verification",
        StepProvider::ProgramVerification,
        "abc123",
    );
    let progress_err = runtime.get_progress().unwrap_err();
    assert!(matches!(
        progress_err,
        VerificationError::NotFound { ref container_name }
            if container_name == "program_verification-abc123"
    ));
    let report_err = runtime.get_report().unwrap_err();
    assert!(matches!(report_err, VerificationError::NotFound { .. }));
    assert_eq!(
        "There is no container having name \"program_verification-abc123\"",
        progress_err.message()
    );
}

#[test]
fn it_tracks_progress_through_lifecycle_states() {
    let mut runtime = runtime_for(
        "program_verification",
        StepProvider::ProgramVerification,
        "abc123",
    );
    runtime.start_running(true).unwrap();
    let progress = runtime.get_progress().unwrap();
    assert_eq!("running", progress.raw_status);
    assert_eq!("program_verification-abc123", progress.container_name);
    assert_eq!("rvt-image", progress.docker_image);
    assert_eq!(
        "Status provided by inspection of container having name \
         \"program_verification-abc123\" and being based on \"rvt-image\" \
         Docker image is \"running\"",
        progress.message
    );
    // The workload inside the container exits.
    runtime
        .container_api_client
        .set_container_status("program_verification-abc123", "exited")
        .unwrap();
    let after = runtime.get_progress().unwrap();
    assert_eq!("exited", after.raw_status);
}

#[test]
fn it_collects_logs_in_emission_order_with_origin_tags() {
    let mut runtime = runtime_for(
        "program_verification",
        StepProvider::ProgramVerification,
        "abc123",
    );
    runtime.start_running(true).unwrap();
    let client = &mut runtime.container_api_client;
    client
        .append_container_log("program_verification-abc123", LogOrigin::StdOut, "line1")
        .unwrap();
    client
        .append_container_log("program_verification-abc123", LogOrigin::StdErr, "line2")
        .unwrap();
    let bundle = runtime.get_report().unwrap();
    assert_eq!("program_verification-abc123", bundle.container_name);
    assert_eq!("line1line2", bundle.raw_log);
    let stdout_at = bundle.messages.find("[STDOUT] line1").unwrap();
    let stderr_at = bundle.messages.find("[STDERR] line2").unwrap();
    assert!(stdout_at < stderr_at);
    assert!(bundle.messages.starts_with(
        "Logs tailed for container having name \"program_verification-abc123\":\n\n"
    ));
}

#[test]
fn it_renders_marker_lines_as_progress_dots_without_altering_the_raw_log() {
    let mut runtime = runtime_for(
        "program_verification",
        StepProvider::ProgramVerification,
        "abc123",
    );
    runtime.start_running(true).unwrap();
    runtime
        .container_api_client
        .append_container_log(
            "program_verification-abc123",
            LogOrigin::StdOut,
            "STDERR:hidden detail",
        )
        .unwrap();
    let bundle = runtime.get_report().unwrap();
    // The raw log is never altered by the display convention.
    assert_eq!("STDERR:hidden detail", bundle.raw_log);
    // The annotated message renders the marker line as a dot.
    assert!(bundle.messages.ends_with('.'));
    assert!(!bundle.messages.contains("[STDOUT] STDERR:hidden detail"));
}

#[test]
fn it_stops_idempotently() {
    let mut runtime = runtime_for(
        "program_verification",
        StepProvider::ProgramVerification,
        "abc123",
    );
    runtime.start_running(true).unwrap();
    let message = runtime.stop_running().unwrap();
    assert_eq!(
        "Removed running container successfully for project with id \"abc123\".",
        message
    );
    assert_eq!(0, runtime.container_api_client.container_count());
    // Stopping again, with no container left, still succeeds.
    runtime.stop_running().unwrap();
    assert_eq!(0, runtime.container_api_client.container_count());
}

#[test]
fn it_exposes_the_plan_through_getters() {
    let runtime = runtime_for(
        "program_verification",
        StepProvider::ProgramVerification,
        "abc123",
    );
    assert_eq!("abc123", runtime.project_id());
    assert_eq!("program_verification", runtime.project_step().name());
    assert_eq!(
        "abc123",
        runtime.step_in_verification_plan().project_id()
    );
    let collection = runtime.verification_step_collection();
    assert!(collection.step(&"program_fuzzing".to_string()).is_ok());
    let _ = runtime.container_api_client();
}
