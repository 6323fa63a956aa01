use invoker_core::monitor::classify_monitor;
use invoker_core::outcome::{ExitReport, SpawnOutcome};
use invoker_core::paths::{parent_dir, resolve_monitor_path};
use invoker_core::privileged::{classify_privileged, helper_argv};
use invoker_core::text::contains_str;

fn exited(code: Option<i32>, stdout: &str, stderr: &str) -> SpawnOutcome {
    SpawnOutcome::Exited(ExitReport {
        code,
        stdout: stdout.to_owned(),
        stderr: stderr.to_owned(),
    })
}

#[test]
fn run_returns_stdout_verbatim_on_success() {
    let out = exited(Some(0), "OK\n", "");
    assert_eq!(classify_monitor("/any/path", &out), "OK\n");
}

#[test]
fn run_prefixes_stderr_on_nonzero_exit() {
    let out = exited(Some(1), "", "bad arg\n");
    assert_eq!(classify_monitor("/any/path", &out), "Error: bad arg\n");
}

#[test]
fn run_prefixes_stderr_on_signal_termination() {
    let out = exited(None, "", "killed\n");
    assert_eq!(classify_monitor("/any/path", &out), "Error: killed\n");
}

#[test]
fn run_reports_attempted_path_when_executable_absent() {
    let path = resolve_monitor_path("/home/user/app/frontend/src-tauri");
    assert_eq!(path, "/home/user/app/backend/system-monitor");
    let out = SpawnOutcome::LaunchFailed("No such file or directory (os error 2)".to_owned());
    let r = classify_monitor(&path, &out);
    assert!(r.contains(&path));
    assert_eq!(
        r,
        "Failed to execute C program at \"/home/user/app/backend/system-monitor\": \
         No such file or directory (os error 2)"
    );
}

#[test]
fn interleaved_runs_return_their_own_output() {
    let first = exited(Some(0), "cpu 12%\n", "");
    let second = exited(Some(0), "mem 34%\n", "");
    let r1 = classify_monitor("/p", &first);
    let r2 = classify_monitor("/p", &second);
    assert_eq!(r1, "cpu 12%\n");
    assert_eq!(r2, "mem 34%\n");
}

#[test]
fn privileged_returns_stdout_verbatim_on_success() {
    let out = exited(Some(0), "total 0\n", "");
    assert_eq!(classify_privileged(&out), "total 0\n");
}

#[test]
fn privileged_exit_126_is_authentication_failure() {
    let out = exited(Some(126), "", "anything at all on stderr\n");
    assert_eq!(
        classify_privileged(&out),
        "Error: Authentication failed or cancelled"
    );
    let silent = exited(Some(126), "", "");
    assert_eq!(
        classify_privileged(&silent),
        "Error: Authentication failed or cancelled"
    );
}

#[test]
fn privileged_denial_marker_is_authentication_failure() {
    let out = exited(Some(1), "", "polkit says: user is not authorized\n");
    assert_eq!(
        classify_privileged(&out),
        "Error: Authentication failed or cancelled"
    );
}

#[test]
fn privileged_generic_failure_surfaces_stderr() {
    let out = exited(Some(2), "", "no such option\n");
    assert_eq!(classify_privileged(&out), "Error: no such option\n");
}

#[test]
fn privileged_missing_helper_is_reported() {
    let out = SpawnOutcome::LaunchFailed("No such file or directory (os error 2)".to_owned());
    let r = classify_privileged(&out);
    assert!(r.contains("not available on this system"));
    assert_eq!(r, "Error: pkexec not available on this system");
}

#[test]
fn privileged_other_launch_failure_is_composed() {
    let out = SpawnOutcome::LaunchFailed("Permission denied (os error 13)".to_owned());
    assert_eq!(
        classify_privileged(&out),
        "Failed to execute sudo command: Permission denied (os error 13)"
    );
}

#[test]
fn helper_argv_passes_tokens_verbatim() {
    let args = vec!["-la".to_owned(), "/".to_owned()];
    let argv = helper_argv("ls", &args);
    assert_eq!(argv, vec!["ls", "-la", "/"]);
}

#[test]
fn helper_argv_keeps_shell_metacharacters_as_one_token() {
    let args = vec!["-la".to_owned(), "; rm -rf /".to_owned()];
    let argv = helper_argv("ls", &args);
    assert_eq!(argv.len(), 3);
    assert_eq!(argv[2], "; rm -rf /");
}

#[test]
fn helper_argv_with_no_arguments_is_just_the_command() {
    let argv = helper_argv("reboot", &Vec::new());
    assert_eq!(argv, vec!["reboot"]);
}

#[test]
fn contains_finds_and_rejects_substrings() {
    assert!(contains_str("user is not authorized to run", "not authorized"));
    assert!(contains_str("abc", ""));
    assert!(contains_str("", ""));
    assert!(contains_str("abc", "abc"));
    assert!(!contains_str("", "a"));
    assert!(!contains_str("abc", "abcd"));
    assert!(!contains_str("not auth orized", "not authorized"));
    assert!(contains_str("xxnot authorized", "not authorized"));
}

#[test]
fn parent_dir_walks_one_step_up() {
    assert_eq!(parent_dir("/a/b/c"), "/a/b");
    assert_eq!(parent_dir("/a"), "");
    assert_eq!(parent_dir("plain"), "");
    assert_eq!(parent_dir("/a/b/"), "/a/b");
    assert_eq!(parent_dir(""), "");
}

#[test]
fn resolve_monitor_path_walks_two_steps_up() {
    assert_eq!(
        resolve_monitor_path("/opt/app/frontend/src-tauri"),
        "/opt/app/backend/system-monitor"
    );
    assert_eq!(
        resolve_monitor_path("a/b"),
        "/backend/system-monitor"
    );
}
