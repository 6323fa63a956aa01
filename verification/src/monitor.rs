//! The unprivileged invoker: classification of what running the
//! system-monitor executable produced.

use vstd::prelude::*;
use vstd::string::*;
use crate::outcome::{exit_success, SpawnOutcome};
use crate::text::{contains_seq, lemma_concat_contains_middle};

verus! {

/// Result text for a monitor process that ran to completion: its stdout on
/// a zero exit, its stderr behind an `Error: ` prefix otherwise.
pub open spec fn monitor_exit_result(code: Option<i32>, stdout: Seq<char>, stderr: Seq<char>) -> Seq<
    char,
> {
    if exit_success(code) {
        stdout
    } else {
        "Error: "@ + stderr
    }
}

/// Result text when the monitor executable could not be launched: a message
/// naming the attempted path and the operating system's error.
pub open spec fn monitor_launch_failure_result(path: Seq<char>, error: Seq<char>) -> Seq<char> {
    "Failed to execute C program at \""@ + path + "\": "@ + error
}

/// Result text of one unprivileged invocation, from the attempted path and
/// the spawn outcome.
pub open spec fn monitor_result(path: Seq<char>, outcome: SpawnOutcome) -> Seq<char> {
    match outcome {
        SpawnOutcome::Exited(report) => monitor_exit_result(
            report.code,
            report.stdout@,
            report.stderr@,
        ),
        SpawnOutcome::LaunchFailed(error) => monitor_launch_failure_result(path, error@),
    }
}

/// Turn the outcome of running the system-monitor executable into the text
/// shown to the user: stdout on success, prefixed stderr on a nonzero exit,
/// and a message naming the attempted path when the launch itself failed.
/// All failure is encoded in the returned text; nothing is raised.
pub fn classify_monitor(path: &str, outcome: &SpawnOutcome) -> (r: String)
    ensures
        r@ == monitor_result(path@, *outcome),
{
    match outcome {
        SpawnOutcome::Exited(report) => {
            let ok = match report.code {
                Some(c) => c == 0,
                None => false,
            };
            if ok {
                report.stdout.clone()
            } else {
                let mut message = "Error: ".to_owned();
                message.append(report.stderr.as_str());
                message
            }
        },
        SpawnOutcome::LaunchFailed(error) => {
            let mut message = "Failed to execute C program at \"".to_owned();
            message.append(path);
            message.append("\": ");
            message.append(error.as_str());
            message
        },
    }
}

/// However the launch of the monitor executable failed, the text handed
/// back names the attempted path.
pub proof fn lemma_launch_failure_names_path(path: Seq<char>, error: Seq<char>)
    ensures
        contains_seq(monitor_launch_failure_result(path, error), path),
{
    let left = "Failed to execute C program at \""@;
    let right = "\": "@ + error;
    assert(monitor_launch_failure_result(path, error) =~= left + path + right);
    lemma_concat_contains_middle(left, path, right);
}

} // verus!
