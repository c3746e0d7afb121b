//! Controller configuration: the file's settings, overridden by the
//! environment, overridden by the command line.

use vstd::prelude::*;

verus! {

/// Paths the controller works with.
#[derive(Clone, Debug)]
pub struct Config {
    pub policy: Option<String>,
    pub cgroup: Option<String>,
    pub feedback: Option<String>,
}

impl Default for Config {
    fn default() -> (r: Config)
        ensures
            r.policy is None,
            r.cgroup is None,
            r.feedback is None,
    {
        Config { policy: None, cgroup: None, feedback: None }
    }
}

/// A value that is set replaces the one before it.
pub open spec fn overridden(before: Option<String>, by: Option<String>) -> Option<String> {
    if by is Some {
        by
    } else {
        before
    }
}

fn override_with(before: Option<String>, by: Option<String>) -> (r: Option<String>)
    ensures
        r == overridden(before, by),
{
    match by {
        Some(v) => Some(v),
        None => before,
    }
}

impl Config {
    /// Applies the environment: each of the policy, cgroup and feedback
    /// variables that is set replaces the configured value.
    pub fn apply_env(&mut self, policy: Option<String>, cgroup: Option<String>, feedback: Option<String>)
        ensures
            final(self).policy == overridden(old(self).policy, policy),
            final(self).cgroup == overridden(old(self).cgroup, cgroup),
            final(self).feedback == overridden(old(self).feedback, feedback),
    {
        let p = self.policy.take();
        self.policy = override_with(p, policy);
        let c = self.cgroup.take();
        self.cgroup = override_with(c, cgroup);
        let f = self.feedback.take();
        self.feedback = override_with(f, feedback);
    }
}

/// The path to use: the one given on the command line, else the configured
/// one.
pub fn prefer_cli(cli: Option<String>, configured: Option<String>) -> (r: Option<String>)
    ensures
        r == overridden(configured, cli),
{
    override_with(configured, cli)
}

} // verus!
