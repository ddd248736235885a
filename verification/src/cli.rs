//! The parsed command-line surface as plain flags, and the exit-code policy
//! for argument errors.  Parsing itself is done by the unverified shell;
//! the library only consumes the resulting flags.

use vstd::prelude::*;

verus! {

/// Represents the parsed command-line arguments.
#[derive(Clone, Copy, Debug, PartialEq, Eq, Structural)]
pub struct CliArgs {
    /// Whether to show verbose output (currently always on).
    pub verbose: bool,
    /// Whether to run in dry-run mode (preview only).
    pub dry_run: bool,
    /// Whether to skip the cleanup step.
    pub skip_cleanup: bool,
}

/// Why argument parsing stopped before the workflow could start.
#[derive(Clone, Copy, Debug, PartialEq, Eq, Structural)]
pub enum ArgIssue {
    /// The user asked for the help text.
    HelpRequested,
    /// The user asked for the version string.
    VersionRequested,
    /// The arguments were malformed (unknown flag, bad syntax, ...).
    Malformed,
}

/// Exit code owed when argument parsing stops the program: help and version
/// requests are not errors and exit 0, while malformed arguments exit 2.
pub fn arg_issue_exit_code(issue: &ArgIssue) -> (code: i32)
    ensures
        code == match issue {
            ArgIssue::HelpRequested => 0int,
            ArgIssue::VersionRequested => 0int,
            ArgIssue::Malformed => 2int,
        },
{
    match issue {
        ArgIssue::HelpRequested => 0,
        ArgIssue::VersionRequested => 0,
        ArgIssue::Malformed => 2,
    }
}

} // verus!
