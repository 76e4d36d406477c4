use vstd::prelude::*;

verus! {

/// Typed failures of the orchestration core.
///
/// Each variant is one class of the error taxonomy: a caller error (an
/// unknown step name), a precondition error (the project was not scaffolded
/// before a start was requested), a failure to reach the container engine at
/// all, a missing container on a status or log query (the expected state
/// before the first start, not a system error), and an operation that the
/// engine itself rejected.
#[derive(Debug)]
pub enum VerificationError {
    /// The requested step name is not registered.
    UnknownStep { step_name: String },
    /// The project directory was not scaffolded before `start_running`.
    ScaffoldMissing { project_id: String },
    /// The container engine cannot be reached.
    RuntimeConnection { message: String },
    /// No container exists under the plan's container name.
    NotFound { container_name: String },
    /// The container engine rejected the operation (bad image, name
    /// collision, mount failure, ...).
    Engine { container_name: String, message: String },
}

/// Rendering of each error as a single diagnostic line.
pub open spec fn spec_error_message(e: VerificationError) -> Seq<char> {
    match e {
        VerificationError::UnknownStep { step_name } => "There is no verification step having name \""@
            + step_name@ + "\""@,
        VerificationError::ScaffoldMissing { project_id } => "Project with id \""@ + project_id@
            + "\" has not been scaffolded yet"@,
        VerificationError::RuntimeConnection { message } => "Could not reach the container engine: "@
            + message@,
        VerificationError::NotFound { container_name } => "There is no container having name \""@
            + container_name@ + "\""@,
        VerificationError::Engine { container_name, message } => "The container engine rejected the operation on container having name \""@
            + container_name@ + "\": "@ + message@,
    }
}

impl VerificationError {
    /// Render the error as a single diagnostic line.
    pub fn message(&self) -> (r: String)
        ensures
            r@ == spec_error_message(*self),
    {
        match self {
            VerificationError::UnknownStep { step_name } => {
                let mut m = "There is no verification step having name \"".to_owned();
                m.append(step_name.as_str());
                m.append("\"");
                m
            },
            VerificationError::ScaffoldMissing { project_id } => {
                let mut m = "Project with id \"".to_owned();
                m.append(project_id.as_str());
                m.append("\" has not been scaffolded yet");
                m
            },
            VerificationError::RuntimeConnection { message } => {
                let mut m = "Could not reach the container engine: ".to_owned();
                m.append(message.as_str());
                m
            },
            VerificationError::NotFound { container_name } => {
                let mut m = "There is no container having name \"".to_owned();
                m.append(container_name.as_str());
                m.append("\"");
                m
            },
            VerificationError::Engine { container_name, message } => {
                let mut m = "The container engine rejected the operation on container having name \"".to_owned();
                m.append(container_name.as_str());
                m.append("\": ");
                m.append(message.as_str());
                m
            },
        }
    }
}

} // verus!
