//! The controller's command line, as plain values.

use vstd::prelude::*;

verus! {

/// A parsed command line.
#[derive(Clone, Debug)]
pub struct Cli {
    pub command: Command,
}

/// What the controller is asked to do.
#[derive(Clone, Debug)]
pub enum Command {
    /// Start enforcement with a policy, a cgroup and a feedback destination;
    /// in audit-only mode every action is observed, none enforced.
    Run { policy: Option<String>, cgroup: Option<String>, feedback: Option<String>, audit_only: bool },
    /// Check a policy file without loading the kernel programs.
    Validate { policy: Option<String> },
    /// Start a new generation, making every older label stale.
    Bump,
    /// Remove the kernel programs and maps, stopping enforcement.
    Unload,
    /// Show the enforcement status.
    Status,
}

} // verus!
