//! The outcome of one attempt to spawn a child process, as the caller
//! observed it: either the child ran to completion, or it never launched.

use vstd::prelude::*;

verus! {

/// What a child process that did run left behind: its exit code and its two
/// captured streams, already decoded as text (invalid byte sequences having
/// been replaced, so decoding never fails).
pub struct ExitReport {
    /// Exit code of the child; `None` when it was terminated by a signal.
    pub code: Option<i32>,
    /// Captured standard output.
    pub stdout: String,
    /// Captured standard error.
    pub stderr: String,
}

/// The outcome of one invocation: the child either exited, or could not be
/// launched at all (executable missing, permissions), in which case the
/// operating system's error text is kept.
pub enum SpawnOutcome {
    /// The child process ran to completion.
    Exited(ExitReport),
    /// The child process could not be launched.
    LaunchFailed(String),
}

/// An exit code counts as success exactly when it is zero; termination by a
/// signal never does.
pub open spec fn exit_success(code: Option<i32>) -> bool {
    code == Some(0i32)
}

} // verus!
