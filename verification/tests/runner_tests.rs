use check_updates::nagios::severity_for;
use check_updates::phase::PhaseState;
use check_updates::runner::{lock_contention_output, Action, Phase, Runner};
use check_updates::{Config, NagiosStatus, UpdateInfo};

fn config() -> Config {
    Config {
        lock_file: None,
        cron_spec: None,
        warning_threshold: 10,
        critical_threshold: 20,
        apply_security_updates: false,
        apply_updates: false,
        non_interactive: false,
    }
}

fn records() -> Vec<UpdateInfo> {
    let ids = vec!["a;1.0".to_string(), "b;2.0".to_string()];
    let details = vec![check_updates::updates::DetailNote {
        package_id: "b;2.0".to_string(),
        is_security: true,
    }];
    check_updates::updates::build_update_records(&ids, &details)
}

#[test]
fn exit_codes_mirror_severity() {
    assert_eq!(NagiosStatus::Okay.exit_code(), 0);
    assert_eq!(NagiosStatus::Warning.exit_code(), 1);
    assert_eq!(NagiosStatus::Critical.exit_code(), 2);
    assert_eq!(NagiosStatus::Unknown.exit_code(), 3);
}

#[test]
fn severity_names() {
    assert_eq!(NagiosStatus::Okay.as_str(), "OK");
    assert_eq!(NagiosStatus::Warning.as_str(), "Warning");
    assert_eq!(NagiosStatus::Critical.as_str(), "Critical");
    assert_eq!(NagiosStatus::Unknown.as_str(), "Unknown");
}

#[test]
fn count_meeting_both_thresholds_is_critical() {
    // Count 10, critical threshold 10, warning threshold 5: the
    // comparisons are inclusive and critical is checked first.
    assert_eq!(severity_for(10, 5, 10), NagiosStatus::Critical);
    assert_eq!(severity_for(9, 5, 10), NagiosStatus::Warning);
    assert_eq!(severity_for(5, 5, 10), NagiosStatus::Warning);
    assert_eq!(severity_for(4, 5, 10), NagiosStatus::Okay);
}

#[test]
fn zero_updates_yield_ok_without_detail_phase() {
    let mut r = Runner::new(config());
    assert_eq!(r.start(false), Action::Refresh);
    assert_eq!(r.on_refreshed(false), Action::Enumerate);
    // Zero enumerated updates: the run reports at once; no
    // detail-fetch action is ever issued.
    assert_eq!(r.on_enumerated(0), Action::Report);
    assert_eq!(r.phase, Phase::Done);
    let o = r.outcome.unwrap();
    assert_eq!(o.status, NagiosStatus::Okay);
    assert_eq!(o.message, "Everything is up to date");
    assert_eq!(o.perfdata.as_deref(), Some("'Total Update'=0 'Security Update'=0"));
}

#[test]
fn scored_run_reports_counts_and_details() {
    let mut cfg = config();
    cfg.warning_threshold = 1;
    cfg.critical_threshold = 5;
    let mut r = Runner::new(cfg);
    assert_eq!(r.start(false), Action::Refresh);
    assert_eq!(r.on_refreshed(false), Action::Enumerate);
    assert_eq!(r.on_enumerated(2), Action::FetchDetails);
    assert_eq!(r.on_details(records()), Action::Report);
    let o = r.outcome.unwrap();
    assert_eq!(o.status, NagiosStatus::Warning);
    assert_eq!(
        o.message,
        "Security-Update = 1 | 'Total Update' = 2\nSecurity updates:\nb 2.0 (SECURITY)\n"
    );
    assert_eq!(o.perfdata.as_deref(), Some("'Total Update'=2 'Security Update'=1"));
}

#[test]
fn no_security_updates_report_none_marker() {
    let ids = vec!["a;1.0".to_string()];
    let details: Vec<check_updates::updates::DetailNote> = Vec::new();
    let recs = check_updates::updates::build_update_records(&ids, &details);
    let mut r = Runner::new(config());
    r.start(false);
    r.on_refreshed(false);
    r.on_enumerated(1);
    r.on_details(recs);
    let o = r.outcome.unwrap();
    assert_eq!(o.status, NagiosStatus::Okay);
    assert_eq!(
        o.message,
        "Security-Update = 0 | 'Total Update' = 1\nSecurity updates:\n(none)\n"
    );
}

#[test]
fn cancellation_before_refresh_reports_cancelled() {
    let mut r = Runner::new(config());
    assert_eq!(r.start(true), Action::Report);
    let o = r.outcome.unwrap();
    assert_eq!(o.status, NagiosStatus::Critical);
    assert_eq!(o.message, "Operation cancelled");
    assert!(o.perfdata.is_none());
}

#[test]
fn cancellation_after_refresh_reports_cancelled() {
    let mut r = Runner::new(config());
    r.start(false);
    assert_eq!(r.on_refreshed(true), Action::Report);
    assert_eq!(r.outcome.unwrap().message, "Operation cancelled");
}

#[test]
fn declined_confirmation_cancels_without_applying() {
    let mut cfg = config();
    cfg.apply_security_updates = true;
    let mut r = Runner::new(cfg);
    r.start(false);
    r.on_refreshed(false);
    r.on_enumerated(2);
    assert_eq!(r.on_details(records()), Action::Confirm);
    assert_eq!(r.phase, Phase::Confirming);
    assert_eq!(r.on_confirmed(false), Action::Report);
    let o = r.outcome.unwrap();
    assert_eq!(o.status, NagiosStatus::Critical);
    assert_eq!(o.message, "Cancelled by user");
}

#[test]
fn accepted_confirmation_applies_then_scores() {
    let mut cfg = config();
    cfg.apply_security_updates = true;
    cfg.warning_threshold = 5;
    cfg.critical_threshold = 9;
    let mut r = Runner::new(cfg);
    r.start(false);
    r.on_refreshed(false);
    r.on_enumerated(2);
    assert_eq!(r.on_details(records()), Action::Confirm);
    // Only the security update is selected for the apply set.
    assert_eq!(r.to_apply.len(), 1);
    assert_eq!(r.to_apply[0].name, "b");
    assert_eq!(r.on_confirmed(true), Action::Apply);
    assert_eq!(r.on_applied(), Action::Report);
    let o = r.outcome.unwrap();
    assert_eq!(o.status, NagiosStatus::Okay);
    assert_eq!(o.perfdata.as_deref(), Some("'Total Update'=2 'Security Update'=1"));
}

#[test]
fn non_interactive_apply_skips_confirmation() {
    let mut cfg = config();
    cfg.apply_updates = true;
    cfg.non_interactive = true;
    let mut r = Runner::new(cfg);
    r.start(false);
    r.on_refreshed(false);
    r.on_enumerated(2);
    assert_eq!(r.on_details(records()), Action::Apply);
    // All updates are selected, and all lines are listed.
    assert_eq!(r.to_apply.len(), 2);
    assert_eq!(r.on_applied(), Action::Report);
    let o = r.outcome.unwrap();
    assert_eq!(
        o.message,
        "Security-Update = 1 | 'Total Update' = 2\nSecurity updates:\na 1.0\nb 2.0 (SECURITY)\n"
    );
}

#[test]
fn empty_apply_set_skips_apply_and_scores() {
    let ids = vec!["a;1.0".to_string()];
    let details: Vec<check_updates::updates::DetailNote> = Vec::new();
    let recs = check_updates::updates::build_update_records(&ids, &details);
    let mut cfg = config();
    cfg.apply_security_updates = true;
    let mut r = Runner::new(cfg);
    r.start(false);
    r.on_refreshed(false);
    r.on_enumerated(1);
    // No security updates to apply: straight to the verdict.
    assert_eq!(r.on_details(recs), Action::Report);
    assert_eq!(r.outcome.unwrap().status, NagiosStatus::Okay);
}

#[test]
fn error_notification_after_finished_still_fails_the_phase() {
    let mut p = PhaseState::new();
    p.on_finished();
    assert!(p.is_complete());
    p.on_error("transaction failed upstream".to_string());
    // Error takes precedence over completion.
    assert_eq!(p.outcome(), Err("transaction failed upstream".to_string()));
}

#[test]
fn phase_listeners_append_independently() {
    let mut p = PhaseState::new();
    assert!(!p.is_complete());
    p.on_package("a;1.0".to_string());
    let no_urls: Vec<String> = Vec::new();
    p.on_update_detail("a;1.0".to_string(), &no_urls, "fixes CVE-2024-1", "");
    p.on_package("b;2.0".to_string());
    p.on_finished();
    assert!(p.is_complete());
    assert_eq!(p.packages, vec!["a;1.0".to_string(), "b;2.0".to_string()]);
    assert_eq!(p.details.len(), 1);
    assert!(p.details[0].is_security);
    assert_eq!(p.outcome(), Ok(()));
}

#[test]
fn lock_contention_is_a_warning() {
    let o = lock_contention_output();
    assert_eq!(o.status, NagiosStatus::Warning);
    assert_eq!(o.message, "Failed to acquire lock file");
    assert_eq!(o.status.exit_code(), 1);
}

#[test]
fn schedule_requires_lock_path() {
    let mut cfg = config();
    cfg.cron_spec = Some("@daily".to_string());
    assert!(!cfg.validate());
    cfg.lock_file = Some("/tmp/probe.lock".to_string());
    assert!(cfg.validate());
    assert!(config().validate());
}

#[test]
fn apply_requested_reflects_either_flag() {
    let mut cfg = config();
    assert!(!cfg.apply_requested());
    cfg.apply_security_updates = true;
    assert!(cfg.apply_requested());
    let mut cfg2 = config();
    cfg2.apply_updates = true;
    assert!(cfg2.apply_requested());
}

#[test]
fn output_line_follows_the_protocol() {
    let mut r = Runner::new(config());
    r.start(false);
    r.on_refreshed(false);
    r.on_enumerated(0);
    let o = r.outcome.unwrap();
    assert_eq!(
        o.render(),
        "UPDATE OK - Everything is up to date | 'Total Update'=0 'Security Update'=0"
    );
    let c = check_updates::runner::lock_contention_output();
    assert_eq!(c.render(), "UPDATE Warning - Failed to acquire lock file");
}
