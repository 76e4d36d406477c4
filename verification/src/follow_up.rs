use vstd::prelude::*;

use crate::engine::{ContainerAPIClient, LogLineModel, LogOrigin};
use crate::error::VerificationError;

verus! {

/// Status of one container, produced on demand from a live inspect call and
/// never cached: the container's name, the image it runs, its raw lifecycle
/// status passed through verbatim, and a human-readable message.
#[derive(Debug)]
pub struct ProgressReport {
    pub container_name: String,
    pub docker_image: String,
    pub raw_status: String,
    pub message: String,
}

/// The complete output of one container, accumulated by draining its log
/// stream: the raw concatenation of every observed line in emission order,
/// and an annotated message tagging each line's origin for display.
#[derive(Debug)]
pub struct LogBundle {
    pub container_name: String,
    pub raw_log: String,
    pub messages: String,
}

/// Message attached to a progress report.
pub open spec fn spec_progress_message(
    container_name: Seq<char>,
    docker_image: Seq<char>,
    raw_status: Seq<char>,
) -> Seq<char> {
    "Status provided by inspection of container having name \""@ + container_name
        + "\" and being based on \""@ + docker_image + "\" Docker image is \""@ + raw_status
        + "\""@
}

/// Header of the annotated log message.
pub open spec fn spec_log_header(container_name: Seq<char>) -> Seq<char> {
    "Logs tailed for container having name \""@ + container_name + "\":\n\n"@
}

/// Whether a stdout line carries the step convention's `STDERR:` marker,
/// asking to be rendered as a progress dot instead of full text. The marker
/// is the prefix `STDERR:` followed by at least one character.
pub open spec fn spec_is_progress_marker(content: Seq<char>) -> bool {
    content.len() > 7 && content.subrange(0, 7) == "STDERR:"@
}

/// One line of the annotated display message: stdout lines carrying the
/// progress marker become a dot, every other line is prefixed with its
/// origin tag. This is a display rendering only; the raw log is never
/// altered by it.
pub open spec fn spec_annotated_line(line: LogLineModel) -> Seq<char> {
    match line.origin {
        LogOrigin::StdOut => if spec_is_progress_marker(line.content) {
            "."@
        } else {
            "[STDOUT] "@ + line.content
        },
        LogOrigin::StdErr => "[STDERR] "@ + line.content,
        LogOrigin::Console => "[CONSOLE] "@ + line.content,
    }
}

/// Full concatenation of the observed output lines, order preserved.
pub open spec fn spec_raw_log(logs: Seq<LogLineModel>) -> Seq<char>
    decreases logs.len(),
{
    if logs.len() == 0 {
        Seq::empty()
    } else {
        spec_raw_log(logs.drop_last()) + logs.last().content
    }
}

/// Concatenation of the annotated renderings of the observed output lines,
/// order preserved.
pub open spec fn spec_annotated_log(logs: Seq<LogLineModel>) -> Seq<char>
    decreases logs.len(),
{
    if logs.len() == 0 {
        Seq::empty()
    } else {
        spec_annotated_log(logs.drop_last()) + spec_annotated_line(logs.last())
    }
}

/// Decide whether a stdout line carries the `STDERR:` progress marker.
pub fn is_progress_marker(content: &String) -> (r: bool)
    ensures
        r == spec_is_progress_marker(content@),
{
    let n = content.as_str().unicode_len();
    if n <= 7 {
        return false;
    }
    let prefix = content.as_str().substring_char(0, 7);
    let marker: String = "STDERR:".to_owned();
    prefix.to_owned().eq(&marker)
}

/// Inspect the container carrying the given name and classify its state
/// into a progress report.
///
/// When no such container exists the result is
/// [`VerificationError::NotFound`]: the expected state before the first
/// start, to be treated as "not yet run", never a crash.
pub fn inspect_container_status<T: ContainerAPIClient>(
    container_api_client: &T,
    container_name: &str,
) -> (r: Result<ProgressReport, VerificationError>)
    ensures
        r matches Ok(report) ==> container_api_client.containers().dom().contains(container_name@)
            && report.container_name@ == container_name@ && report.docker_image@
            == container_api_client.containers()[container_name@].image && report.raw_status@
            == container_api_client.containers()[container_name@].status && report.message@
            == spec_progress_message(
            container_name@,
            container_api_client.containers()[container_name@].image,
            container_api_client.containers()[container_name@].status,
        ),
        r matches Err(e) ==> e is NotFound || e is RuntimeConnection || e is Engine,
        (r matches Err(e) && e is NotFound) ==> !container_api_client.containers().dom().contains(
            container_name@,
        ),
        !container_api_client.containers().dom().contains(container_name@) ==> r is Err,
{
    let inspected = match container_api_client.inspect_container(container_name) {
        Ok(state) => state,
        Err(e) => {
            return Err(e);
        },
    };
    let mut message = "Status provided by inspection of container having name \"".to_owned();
    message.append(container_name);
    message.append("\" and being based on \"");
    message.append(inspected.docker_image.as_str());
    message.append("\" Docker image is \"");
    message.append(inspected.raw_status.as_str());
    message.append("\"");
    Ok(
        ProgressReport {
            container_name: container_name.to_owned(),
            docker_image: inspected.docker_image,
            raw_status: inspected.raw_status,
            message,
        },
    )
}

/// Drain the logs of the container carrying the given name into a log
/// bundle: `raw_log` is the unaltered concatenation of every observed line
/// in emission order, and `messages` renders each line for display, tagged
/// with its origin (stdout lines carrying the `STDERR:` marker become a
/// progress dot).
///
/// When no such container exists the result is
/// [`VerificationError::NotFound`], never a crash.
pub fn tail_container_logs<T: ContainerAPIClient>(
    container_api_client: &T,
    container_name: &str,
) -> (r: Result<LogBundle, VerificationError>)
    ensures
        r matches Ok(bundle) ==> container_api_client.containers().dom().contains(container_name@)
            && bundle.container_name@ == container_name@ && bundle.raw_log@ == spec_raw_log(
            container_api_client.containers()[container_name@].logs,
        ) && bundle.messages@ == spec_log_header(container_name@) + spec_annotated_log(
            container_api_client.containers()[container_name@].logs,
        ),
        r matches Err(e) ==> e is NotFound || e is RuntimeConnection || e is Engine,
        (r matches Err(e) && e is NotFound) ==> !container_api_client.containers().dom().contains(
            container_name@,
        ),
        !container_api_client.containers().dom().contains(container_name@) ==> r is Err,
{
    let lines = match container_api_client.container_logs(container_name) {
        Ok(lines) => lines,
        Err(e) => {
            return Err(e);
        },
    };
    let ghost logs = lines.deep_view();
    let mut raw_log = String::new();
    let mut annotated = String::new();
    let mut i: usize = 0;
    while i < lines.len()
        invariant
            0 <= i <= lines.len(),
            logs == lines.deep_view(),
            logs.len() == lines.len(),
            raw_log@ == spec_raw_log(logs.take(i as int)),
            annotated@ == spec_annotated_log(logs.take(i as int)),
        decreases lines.len() - i,
    {
        proof {
            assert(logs.take(i as int + 1).drop_last() =~= logs.take(i as int));
            assert(logs.take(i as int + 1).last() == logs[i as int]);
            assert(logs[i as int] == lines[i as int]@);
        }
        let line = &lines[i];
        raw_log.append(line.content.as_str());
        match line.origin {
            LogOrigin::StdOut => {
                if is_progress_marker(&line.content) {
                    annotated.append(".");
                } else {
                    annotated.append("[STDOUT] ");
                    annotated.append(line.content.as_str());
                }
            },
            LogOrigin::StdErr => {
                annotated.append("[STDERR] ");
                annotated.append(line.content.as_str());
            },
            LogOrigin::Console => {
                annotated.append("[CONSOLE] ");
                annotated.append(line.content.as_str());
            },
        }
        i += 1;
    }
    proof {
        assert(logs.take(lines.len() as int) =~= logs);
    }
    let mut messages = "Logs tailed for container having name \"".to_owned();
    messages.append(container_name);
    messages.append("\":\n\n");
    messages.append(annotated.as_str());
    Ok(LogBundle { container_name: container_name.to_owned(), raw_log, messages })
}

} // verus!
