//! The configuration surface of a run, as resolved from the command
//! line: paths, schedule, thresholds and apply flags.

use vstd::prelude::*;

verus! {

/// The resolved configuration of one probe run.
#[derive(Debug)]
pub struct Config {
    /// Path of the lock file; enables single-instance enforcement.
    pub lock_file: Option<String>,
    /// Schedule spec; requires `lock_file` to be set as well.
    pub cron_spec: Option<String>,
    /// Security-update count from which the verdict is a warning.
    pub warning_threshold: usize,
    /// Security-update count from which the verdict is critical.
    pub critical_threshold: usize,
    /// Apply the security updates after reporting them.
    pub apply_security_updates: bool,
    /// Apply all pending updates after reporting them.
    pub apply_updates: bool,
    /// Skip the interactive confirmation before applying.
    pub non_interactive: bool,
}

impl Config {
    /// A consistent configuration: a schedule can only be given
    /// together with a lock file.
    pub open spec fn consistent(&self) -> bool {
        self.cron_spec is Some ==> self.lock_file is Some
    }

    /// Whether the configuration is consistent: a schedule without a
    /// lock file is a startup configuration error.
    pub fn validate(&self) -> (r: bool)
        ensures
            r == self.consistent(),
    {
        !(self.cron_spec.is_some() && self.lock_file.is_none())
    }

    /// Whether either apply mode is requested.
    pub fn apply_requested(&self) -> (r: bool)
        ensures
            r == (self.apply_updates || self.apply_security_updates),
    {
        self.apply_updates || self.apply_security_updates
    }
}

} // verus!
