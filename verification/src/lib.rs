//! Core of a desktop shell that forwards user-triggered actions to external
//! processes and reports their output as plain text.
//!
//! Two stateless components are offered:
//!
//! - an unprivileged invoker, which resolves the path of a co-located
//!   `system-monitor` executable relative to the application's install
//!   directory and classifies the outcome of running it
//!   ([`paths::resolve_monitor_path`], [`monitor::classify_monitor`]);
//! - a privileged invoker, which prepares the verbatim argument list for the
//!   system's authentication helper (`pkexec`) and classifies the helper's
//!   outcome, distinguishing authentication denial from a missing helper and
//!   from ordinary command failure ([`privileged::helper_argv`],
//!   [`privileged::classify_privileged`]).
//!
//! Process spawning itself is left to the caller: it hands the captured exit
//! code and decoded output streams to this crate as a [`outcome::SpawnOutcome`]
//! and receives the single text result that the user is shown. Every failure
//! mode is encoded in that text; nothing here panics or raises.

pub mod monitor;
pub mod outcome;
pub mod paths;
pub mod privileged;
pub mod text;
