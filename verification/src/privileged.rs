//! The privileged invoker: the argument list handed to the system's
//! authentication helper (`pkexec`), and classification of what running it
//! produced. Denial of authentication, a missing helper and ordinary
//! command failure are told apart and reported as distinct texts.

use vstd::prelude::*;
use vstd::string::*;
use crate::outcome::{exit_success, SpawnOutcome};
use crate::text::{contains_seq, contains_str, lemma_concat_contains_middle};

verus! {

/// Result text for a helper process that ran to completion: stdout on a
/// zero exit; the fixed authentication message when stderr carries the
/// denial marker or the exit code is the canonical "not authorized" code
/// 126; stderr behind an `Error: ` prefix otherwise. Denial detection comes
/// first, so a cancelled authentication is never misreported as a command
/// failure.
pub open spec fn privileged_exit_result(
    code: Option<i32>,
    stdout: Seq<char>,
    stderr: Seq<char>,
) -> Seq<char> {
    if exit_success(code) {
        stdout
    } else if contains_seq(stderr, "not authorized"@) || code == Some(126i32) {
        "Error: Authentication failed or cancelled"@
    } else {
        "Error: "@ + stderr
    }
}

/// Result text when the helper could not be launched: a fixed message when
/// the launch error says the helper's file does not exist, the composed
/// launch error otherwise.
pub open spec fn privileged_launch_failure_result(error: Seq<char>) -> Seq<char> {
    if contains_seq(
        "Failed to execute sudo command: "@ + error,
        "No such file or directory"@,
    ) {
        "Error: pkexec not available on this system"@
    } else {
        "Failed to execute sudo command: "@ + error
    }
}

/// Result text of one privileged invocation, from the spawn outcome.
pub open spec fn privileged_result(outcome: SpawnOutcome) -> Seq<char> {
    match outcome {
        SpawnOutcome::Exited(report) => privileged_exit_result(
            report.code,
            report.stdout@,
            report.stderr@,
        ),
        SpawnOutcome::LaunchFailed(error) => privileged_launch_failure_result(error@),
    }
}

/// The exact argument vector for the authentication helper: the target
/// command first, then every argument, each as its own token, verbatim.
/// The tokens are handed to the operating system one by one and no shell
/// ever parses them, so shell metacharacters in an argument carry no
/// meaning.
pub fn helper_argv(command: &str, args: &Vec<String>) -> (r: Vec<String>)
    ensures
        r@.len() == 1 + args@.len(),
        r@[0]@ == command@,
        forall|i: int| 1 <= i < r@.len() ==> r@[i]@ == args@[i - 1]@,
{
    let mut argv: Vec<String> = Vec::new();
    argv.push(command.to_owned());
    let mut k: usize = 0;
    while k < args.len()
        invariant
            k <= args@.len(),
            argv@.len() == 1 + k,
            argv@[0]@ == command@,
            forall|i: int| 1 <= i < argv@.len() ==> argv@[i]@ == args@[i - 1]@,
        decreases args@.len() - k,
    {
        argv.push(args[k].clone());
        k += 1;
    }
    argv
}

/// Turn the outcome of running a command through the authentication helper
/// into the text shown to the user. All failure is encoded in the returned
/// text; nothing is raised.
pub fn classify_privileged(outcome: &SpawnOutcome) -> (r: String)
    ensures
        r@ == privileged_result(*outcome),
{
    match outcome {
        SpawnOutcome::Exited(report) => {
            let ok = match report.code {
                Some(c) => c == 0,
                None => false,
            };
            if ok {
                report.stdout.clone()
            } else {
                let denied = contains_str(report.stderr.as_str(), "not authorized");
                let blocked = match report.code {
                    Some(c) => c == 126,
                    None => false,
                };
                if denied || blocked {
                    "Error: Authentication failed or cancelled".to_owned()
                } else {
                    let mut message = "Error: ".to_owned();
                    message.append(report.stderr.as_str());
                    message
                }
            }
        },
        SpawnOutcome::LaunchFailed(error) => {
            let mut message = "Failed to execute sudo command: ".to_owned();
            message.append(error.as_str());
            if contains_str(message.as_str(), "No such file or directory") {
                "Error: pkexec not available on this system".to_owned()
            } else {
                message
            }
        },
    }
}

/// An exit code of 126 is reported as an authentication failure, whatever
/// the helper wrote to its streams.
pub proof fn lemma_exit_code_126_is_authentication_failure(stdout: Seq<char>, stderr: Seq<char>)
    ensures
        privileged_exit_result(Some(126i32), stdout, stderr)
            == "Error: Authentication failed or cancelled"@,
{
}

/// A nonzero exit whose stderr carries the denial marker is reported as an
/// authentication failure, never as a generic command failure: denial
/// detection comes before the raw stderr fallback.
pub proof fn lemma_denial_marker_is_authentication_failure(
    code: Option<i32>,
    stdout: Seq<char>,
    stderr: Seq<char>,
)
    requires
        !exit_success(code),
        contains_seq(stderr, "not authorized"@),
    ensures
        privileged_exit_result(code, stdout, stderr)
            == "Error: Authentication failed or cancelled"@,
{
}

/// A launch error that names a missing file is reported with a text that
/// says the helper is not available on this system.
pub proof fn lemma_missing_helper_is_reported(error: Seq<char>)
    requires
        contains_seq(
            "Failed to execute sudo command: "@ + error,
            "No such file or directory"@,
        ),
    ensures
        contains_seq(privileged_launch_failure_result(error), "not available on this system"@),
{
    reveal_strlit("Error: pkexec not available on this system");
    reveal_strlit("not available on this system");
    reveal_strlit("Error: pkexec ");
    let whole = "Error: pkexec not available on this system"@;
    let left = "Error: pkexec "@;
    let mid = "not available on this system"@;
    let right = Seq::<char>::empty();
    assert(whole =~= left + mid + right);
    lemma_concat_contains_middle(left, mid, right);
}

} // verus!
