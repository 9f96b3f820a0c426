//! A verified monitoring probe core: it decides from a cron-like
//! schedule and a persisted last-run timestamp whether a check is due,
//! models the lock-guarded last-run record, aggregates the package
//! service's notification streams into update records, and scores the
//! result into a health verdict.
//!
//! The surrounding process — command-line handling, the lock file's
//! I/O, and the D-Bus transport to the package service — lives outside
//! this library and drives it step by step.

pub mod clock;
pub mod config;
pub mod cron;
pub mod lockstate;
pub mod nagios;
pub mod phase;
pub mod runner;
pub mod text;
pub mod updates;

pub use config::Config;
pub use cron::{parse_cron_spec, should_run, CronField, CronSpec};
pub use nagios::{NagiosOutput, NagiosStatus};
pub use updates::{parse_package_id, UpdateInfo};
