//! The orchestrator: a state machine that sequences the four phases
//! (refresh, enumerate, detail-fetch, apply), applies the threshold
//! policy, and produces the final verdict.
//!
//! Each step takes the result of the outside work the previous action
//! asked for and answers with the next action; the caller performs
//! the actions (the service calls, the confirmation prompt) and feeds
//! the results back in.

use vstd::prelude::*;

use vstd::string::StringExecFns;

use crate::config::Config;
use crate::nagios::{severity_for, severity_spec, NagiosOutput, NagiosStatus};
use crate::text::{dec_str, dec_string};
use crate::updates::UpdateInfo;

verus! {

/// Where a run stands.
#[derive(Debug, Clone, Copy, PartialEq, Eq, Structural)]
pub enum Phase {
    Idle,
    Refreshing,
    Enumerating,
    DetailFetching,
    Confirming,
    Applying,
    Done,
}

/// What the caller is asked to do next.
#[derive(Debug, Clone, Copy, PartialEq, Eq, Structural)]
pub enum Action {
    /// Run the cache-refresh phase.
    Refresh,
    /// Run the enumerate phase and hand back the identifiers.
    Enumerate,
    /// Run the detail-fetch phase for the enumerated identifiers.
    FetchDetails,
    /// Ask the user to confirm the pending apply set.
    Confirm,
    /// Run the apply phase for the pending apply set.
    Apply,
    /// The run is over; report the verdict.
    Report,
}

/// The fields of one update record that the contracts speak of:
/// identifier, name, version and security flag.
pub open spec fn rec_view(u: UpdateInfo) -> (Seq<char>, Seq<char>, Seq<char>, bool) {
    (u.package_id@, u.name@, u.version@, u.is_security)
}

/// The records' fields, in order.
pub open spec fn recs_view(s: Seq<UpdateInfo>) -> Seq<(Seq<char>, Seq<char>, Seq<char>, bool)> {
    s.map_values(|u: UpdateInfo| rec_view(u))
}

/// How many of the records are security updates.
pub open spec fn count_security(s: Seq<(Seq<char>, Seq<char>, Seq<char>, bool)>) -> int
    decreases s.len(),
{
    if s.len() == 0 {
        0
    } else {
        count_security(s.drop_last()) + if s.last().3 {
            1int
        } else {
            0int
        }
    }
}

/// The records that are security updates, in order.
pub open spec fn security_only(s: Seq<(Seq<char>, Seq<char>, Seq<char>, bool)>) -> Seq<
    (Seq<char>, Seq<char>, Seq<char>, bool),
>
    decreases s.len(),
{
    if s.len() == 0 {
        Seq::empty()
    } else {
        security_only(s.drop_last()) + if s.last().3 {
            seq![s.last()]
        } else {
            Seq::empty()
        }
    }
}

/// The reported line of one record: name, version, a security tag for
/// security updates; only security updates are listed unless every
/// update is about to be applied.
pub open spec fn line_of(v: (Seq<char>, Seq<char>, Seq<char>, bool), include_all: bool) -> Seq<
    char,
> {
    if v.3 || include_all {
        v.1 + " "@ + v.2 + (if v.3 {
            " (SECURITY)"@
        } else {
            Seq::empty()
        }) + "\n"@
    } else {
        Seq::empty()
    }
}

/// The reported lines of all records, in order.
pub open spec fn lines_of(
    s: Seq<(Seq<char>, Seq<char>, Seq<char>, bool)>,
    include_all: bool,
) -> Seq<char>
    decreases s.len(),
{
    if s.len() == 0 {
        Seq::empty()
    } else {
        lines_of(s.drop_last(), include_all) + line_of(s.last(), include_all)
    }
}

/// The details block of the final message: a header, the lines, and a
/// placeholder when nothing was listed.
pub open spec fn details_block(
    s: Seq<(Seq<char>, Seq<char>, Seq<char>, bool)>,
    include_all: bool,
) -> Seq<char> {
    "Security updates:\n"@ + lines_of(s, include_all) + if count_security(s) == 0 && !include_all {
        "(none)\n"@
    } else {
        Seq::empty()
    }
}

/// The performance-counter string: total update count and security
/// update count.
pub open spec fn perfdata_str(total: int, security: int) -> Seq<char> {
    "'Total Update'="@ + dec_str(total) + " 'Security Update'="@ + dec_str(security)
}

/// The final scored message: both counters, then the details block.
pub open spec fn score_message(
    s: Seq<(Seq<char>, Seq<char>, Seq<char>, bool)>,
    include_all: bool,
) -> Seq<char> {
    "Security-Update = "@ + dec_str(count_security(s)) + " | 'Total Update' = "@ + dec_str(
        s.len() as int,
    ) + "\n"@ + details_block(s, include_all)
}

/// The scored verdict for a set of records: severity from the security
/// count against the thresholds, the scored message, both counters.
pub open spec fn is_score_output(
    o: NagiosOutput,
    s: Seq<(Seq<char>, Seq<char>, Seq<char>, bool)>,
    warning: nat,
    critical: nat,
    include_all: bool,
) -> bool {
    &&& o.status == severity_spec(count_security(s) as nat, warning, critical)
    &&& o.message@ == score_message(s, include_all)
    &&& o.perfdata matches Some(p) && p@ == perfdata_str(s.len() as int, count_security(s))
}

/// The verdict of a run cancelled by a termination signal.
pub open spec fn is_cancelled_output(o: NagiosOutput) -> bool {
    &&& o.status == NagiosStatus::Critical
    &&& o.message@ == "Operation cancelled"@
    &&& o.perfdata is None
}

/// The verdict of a run with nothing to update: healthy, both counters
/// zero.
pub open spec fn is_up_to_date_output(o: NagiosOutput) -> bool {
    &&& o.status == NagiosStatus::Okay
    &&& o.message@ == "Everything is up to date"@
    &&& o.perfdata matches Some(p) && p@ == perfdata_str(0, 0)
}

/// The verdict when the user declines the confirmation.
pub open spec fn is_user_cancelled_output(o: NagiosOutput) -> bool {
    &&& o.status == NagiosStatus::Critical
    &&& o.message@ == "Cancelled by user"@
    &&& o.perfdata is None
}

/// The verdict when another instance holds the lock in interactive
/// mode.
pub open spec fn is_lock_contention_output(o: NagiosOutput) -> bool {
    &&& o.status == NagiosStatus::Warning
    &&& o.message@ == "Failed to acquire lock file"@
    &&& o.perfdata is None
}

/// The verdict of a run cancelled by a termination signal.
pub fn cancelled_output() -> (o: NagiosOutput)
    ensures
        is_cancelled_output(o),
{
    NagiosOutput {
        status: NagiosStatus::Critical,
        message: "Operation cancelled".to_owned(),
        perfdata: None,
    }
}

/// The verdict when the user declines the confirmation.
pub fn user_cancelled_output() -> (o: NagiosOutput)
    ensures
        is_user_cancelled_output(o),
{
    NagiosOutput {
        status: NagiosStatus::Critical,
        message: "Cancelled by user".to_owned(),
        perfdata: None,
    }
}

/// The verdict when another instance holds the lock in interactive
/// mode.
pub fn lock_contention_output() -> (o: NagiosOutput)
    ensures
        is_lock_contention_output(o),
{
    NagiosOutput {
        status: NagiosStatus::Warning,
        message: "Failed to acquire lock file".to_owned(),
        perfdata: None,
    }
}

/// Builds the performance-counter string for the two counters.
fn build_perfdata(total: usize, security: usize) -> (r: String)
    ensures
        r@ == perfdata_str(total as int, security as int),
{
    let mut out = String::new();
    out.append("'Total Update'=");
    let t = dec_string(total);
    out.append(t.as_str());
    out.append(" 'Security Update'=");
    let s = dec_string(security);
    out.append(s.as_str());
    proof {
        assert(out@ =~= perfdata_str(total as int, security as int));
    }
    out
}

/// The verdict of a run with nothing to update.
pub fn up_to_date_output() -> (o: NagiosOutput)
    ensures
        is_up_to_date_output(o),
{
    NagiosOutput {
        status: NagiosStatus::Okay,
        message: "Everything is up to date".to_owned(),
        perfdata: Some(build_perfdata(0, 0)),
    }
}

/// Counts the security updates among the records.
fn count_security_recs(records: &Vec<UpdateInfo>) -> (n: usize)
    ensures
        n == count_security(recs_view(records@)),
{
    let mut n: usize = 0;
    let mut i: usize = 0;
    while i < records.len()
        invariant
            0 <= i <= records@.len(),
            n == count_security(recs_view(records@.take(i as int))),
            n <= i,
        decreases records@.len() - i,
    {
        proof {
            assert(recs_view(records@.take(i + 1int)).drop_last() =~= recs_view(
                records@.take(i as int),
            ));
            assert(recs_view(records@.take(i + 1int)).last() == rec_view(records@[i as int]));
        }
        if records[i].is_security {
            n = n + 1;
        }
        i = i + 1;
    }
    proof {
        assert(records@.take(records@.len() as int) =~= records@);
    }
    n
}

/// Copies the security updates out of the records, in order.
fn select_security(records: &Vec<UpdateInfo>) -> (r: Vec<UpdateInfo>)
    ensures
        recs_view(r@) == security_only(recs_view(records@)),
{
    let mut out: Vec<UpdateInfo> = Vec::new();
    let mut i: usize = 0;
    proof {
        assert(recs_view(out@) =~= security_only(recs_view(records@.take(0))));
    }
    while i < records.len()
        invariant
            0 <= i <= records@.len(),
            recs_view(out@) == security_only(recs_view(records@.take(i as int))),
        decreases records@.len() - i,
    {
        proof {
            assert(recs_view(records@.take(i + 1int)).drop_last() =~= recs_view(
                records@.take(i as int),
            ));
            assert(recs_view(records@.take(i + 1int)).last() == rec_view(records@[i as int]));
        }
        if records[i].is_security {
            let ghost before = out@;
            out.push(records[i].clone());
            proof {
                assert(recs_view(out@) =~= recs_view(before).push(rec_view(out@.last())));
                assert(rec_view(out@.last()) == rec_view(records@[i as int]));
                assert(recs_view(out@) =~= security_only(recs_view(records@.take(i + 1int))));
            }
        }
        i = i + 1;
    }
    proof {
        assert(records@.take(records@.len() as int) =~= records@);
    }
    out
}

/// Copies all records, in order.
fn select_all(records: &Vec<UpdateInfo>) -> (r: Vec<UpdateInfo>)
    ensures
        recs_view(r@) == recs_view(records@),
{
    let mut out: Vec<UpdateInfo> = Vec::new();
    let mut i: usize = 0;
    while i < records.len()
        invariant
            0 <= i <= records@.len(),
            out@.len() == i,
            recs_view(out@) == recs_view(records@.take(i as int)),
        decreases records@.len() - i,
    {
        let ghost before = out@;
        out.push(records[i].clone());
        proof {
            assert(recs_view(out@) =~= recs_view(before).push(rec_view(out@.last())));
            assert(recs_view(records@.take(i + 1int)) =~= recs_view(records@.take(i as int)).push(
                rec_view(records@[i as int]),
            ));
        }
        i = i + 1;
    }
    proof {
        assert(records@.take(records@.len() as int) =~= records@);
    }
    out
}

/// Builds the details block: the header, one line per listed record,
/// and the placeholder when nothing was listed.
fn build_details(records: &Vec<UpdateInfo>, include_all: bool) -> (r: String)
    ensures
        r@ == details_block(recs_view(records@), include_all),
{
    let mut out = String::new();
    out.append("Security updates:\n");
    let ghost header = "Security updates:\n"@;
    let mut i: usize = 0;
    while i < records.len()
        invariant
            0 <= i <= records@.len(),
            out@ == header + lines_of(recs_view(records@.take(i as int)), include_all),
        decreases records@.len() - i,
    {
        proof {
            assert(recs_view(records@.take(i + 1int)).drop_last() =~= recs_view(
                records@.take(i as int),
            ));
            assert(recs_view(records@.take(i + 1int)).last() == rec_view(records@[i as int]));
        }
        let ghost before = out@;
        if records[i].is_security || include_all {
            out.append(records[i].name.as_str());
            out.append(" ");
            out.append(records[i].version.as_str());
            if records[i].is_security {
                out.append(" (SECURITY)");
            }
            out.append("\n");
        }
        proof {
            assert(out@ =~= before + line_of(rec_view(records@[i as int]), include_all));
            assert(out@ =~= header + lines_of(recs_view(records@.take(i + 1int)), include_all));
        }
        i = i + 1;
    }
    proof {
        assert(records@.take(records@.len() as int) =~= records@);
    }
    let security_count = count_security_recs(records);
    if security_count == 0 && !include_all {
        out.append("(none)\n");
    }
    proof {
        assert(out@ =~= details_block(recs_view(records@), include_all));
    }
    out
}

/// Scores the records: severity from the security count against the
/// thresholds, the message with both counters and the details block,
/// and the performance counters.
pub fn score(records: &Vec<UpdateInfo>, warning: usize, critical: usize, include_all: bool) -> (o:
    NagiosOutput)
    ensures
        is_score_output(
            o,
            recs_view(records@),
            warning as nat,
            critical as nat,
            include_all,
        ),
{
    let security_count = count_security_recs(records);
    let total = records.len();
    let status = severity_for(security_count, warning, critical);
    let mut message = String::new();
    message.append("Security-Update = ");
    let s = dec_string(security_count);
    message.append(s.as_str());
    message.append(" | 'Total Update' = ");
    let t = dec_string(total);
    message.append(t.as_str());
    message.append("\n");
    let details = build_details(records, include_all);
    message.append(details.as_str());
    proof {
        assert(message@ =~= score_message(recs_view(records@), include_all));
        assert(recs_view(records@).len() == records@.len());
    }
    let perfdata = build_perfdata(total, security_count);
    NagiosOutput { status, message, perfdata: Some(perfdata) }
}

/// One run of the probe, driven step by step: the caller performs each
/// returned [`Action`] and reports its result back.
pub struct Runner {
    /// The run's configuration.
    pub config: Config,
    /// Where the run stands.
    pub phase: Phase,
    /// The merged update records, once the detail-fetch phase is done.
    pub records: Vec<UpdateInfo>,
    /// The records waiting to be applied.
    pub to_apply: Vec<UpdateInfo>,
    /// The final verdict, once the run is done.
    pub outcome: Option<NagiosOutput>,
}

impl Runner {
    /// The scored verdict for the stored records under the stored
    /// configuration.
    pub open spec fn scored(self, o: NagiosOutput) -> bool {
        is_score_output(
            o,
            recs_view(self.records@),
            self.config.warning_threshold as nat,
            self.config.critical_threshold as nat,
            self.config.apply_updates,
        )
    }

    /// A fresh run for `config`, not yet started.
    pub fn new(config: Config) -> (r: Runner)
        ensures
            r.phase == Phase::Idle,
            r.outcome is None,
            r.config == config,
    {
        Runner {
            config,
            phase: Phase::Idle,
            records: Vec::new(),
            to_apply: Vec::new(),
            outcome: None,
        }
    }

    /// Begins the run. A cancellation that arrived before the first
    /// phase ends the run with the cancelled verdict; otherwise the
    /// cache-refresh phase is next.
    pub fn start(&mut self, cancelled: bool) -> (a: Action)
        requires
            old(self).phase == Phase::Idle,
        ensures
            final(self).config == old(self).config,
            cancelled ==> final(self).phase == Phase::Done && a == Action::Report && (final(self).outcome matches Some(o) && is_cancelled_output(o)),
            !cancelled ==> final(self).phase == Phase::Refreshing && a == Action::Refresh && final(self).outcome is None,
    {
        if cancelled {
            self.outcome = Some(cancelled_output());
            self.phase = Phase::Done;
            Action::Report
        } else {
            self.outcome = None;
            self.phase = Phase::Refreshing;
            Action::Refresh
        }
    }

    /// Takes the end of the cache-refresh phase. A cancellation that
    /// arrived meanwhile ends the run with the cancelled verdict;
    /// otherwise the enumerate phase is next.
    pub fn on_refreshed(&mut self, cancelled: bool) -> (a: Action)
        requires
            old(self).phase == Phase::Refreshing,
        ensures
            final(self).config == old(self).config,
            cancelled ==> final(self).phase == Phase::Done && a == Action::Report && (final(self).outcome matches Some(o) && is_cancelled_output(o)),
            !cancelled ==> final(self).phase == Phase::Enumerating && a == Action::Enumerate
                && final(self).outcome is None,
    {
        if cancelled {
            self.outcome = Some(cancelled_output());
            self.phase = Phase::Done;
            Action::Report
        } else {
            self.outcome = None;
            self.phase = Phase::Enumerating;
            Action::Enumerate
        }
    }

    /// Takes the enumerate phase's identifiers. Zero identifiers end
    /// the run at once with the healthy verdict and zero counters,
    /// without a detail-fetch phase; otherwise the detail-fetch phase
    /// is next.
    pub fn on_enumerated(&mut self, count: usize) -> (a: Action)
        requires
            old(self).phase == Phase::Enumerating,
        ensures
            final(self).config == old(self).config,
            count == 0 ==> final(self).phase == Phase::Done && a == Action::Report && (final(self).outcome matches Some(o) && is_up_to_date_output(o)),
            count > 0 ==> final(self).phase == Phase::DetailFetching && a == Action::FetchDetails
                && final(self).outcome is None,
    {
        if count == 0 {
            self.outcome = Some(up_to_date_output());
            self.phase = Phase::Done;
            Action::Report
        } else {
            self.outcome = None;
            self.phase = Phase::DetailFetching;
            Action::FetchDetails
        }
    }

    /// Takes the merged records of the detail-fetch phase. When an
    /// apply mode is configured and records are selected (all of them,
    /// or only the security updates), the confirmation or the apply
    /// phase is next; otherwise the run is scored and done.
    pub fn on_details(&mut self, records: Vec<UpdateInfo>) -> (a: Action)
        requires
            old(self).phase == Phase::DetailFetching,
        ensures
            final(self).config == old(self).config,
            recs_view(final(self).records@) == recs_view(records@),
            ({
                let sel = if old(self).config.apply_updates {
                    recs_view(records@)
                } else {
                    security_only(recs_view(records@))
                };
                let apply_requested = old(self).config.apply_updates || old(self).config.apply_security_updates;
                if apply_requested && sel.len() > 0 {
                    &&& recs_view(final(self).to_apply@) == sel
                    &&& final(self).outcome is None
                    &&& if old(self).config.non_interactive {
                        final(self).phase == Phase::Applying && a == Action::Apply
                    } else {
                        final(self).phase == Phase::Confirming && a == Action::Confirm
                    }
                } else {
                    &&& final(self).phase == Phase::Done
                    &&& a == Action::Report
                    &&& (final(self).outcome matches Some(o) && final(self).scored(o))
                }
            }),
    {
        self.records = records;
        let apply_requested = self.config.apply_updates || self.config.apply_security_updates;
        if apply_requested {
            let selected = if self.config.apply_updates {
                select_all(&self.records)
            } else {
                select_security(&self.records)
            };
            if selected.len() > 0 {
                proof {
                    assert(recs_view(selected@).len() == selected@.len());
                }
                self.to_apply = selected;
                self.outcome = None;
                if self.config.non_interactive {
                    self.phase = Phase::Applying;
                    return Action::Apply;
                } else {
                    self.phase = Phase::Confirming;
                    return Action::Confirm;
                }
            }
            proof {
                assert(recs_view(selected@).len() == selected@.len());
            }
        }
        let o = score(
            &self.records,
            self.config.warning_threshold,
            self.config.critical_threshold,
            self.config.apply_updates,
        );
        self.outcome = Some(o);
        self.phase = Phase::Done;
        Action::Report
    }

    /// Takes the user's answer to the confirmation. Declining ends the
    /// run with the cancelled-by-user verdict and nothing applied;
    /// accepting moves on to the apply phase.
    pub fn on_confirmed(&mut self, yes: bool) -> (a: Action)
        requires
            old(self).phase == Phase::Confirming,
        ensures
            final(self).config == old(self).config,
            recs_view(final(self).records@) == recs_view(old(self).records@),
            recs_view(final(self).to_apply@) == recs_view(old(self).to_apply@),
            !yes ==> final(self).phase == Phase::Done && a == Action::Report && (final(self).outcome matches Some(o) && is_user_cancelled_output(o)),
            yes ==> final(self).phase == Phase::Applying && a == Action::Apply && final(self).outcome is None,
    {
        if !yes {
            self.outcome = Some(user_cancelled_output());
            self.phase = Phase::Done;
            Action::Report
        } else {
            self.outcome = None;
            self.phase = Phase::Applying;
            Action::Apply
        }
    }

    /// Takes the successful end of the apply phase: the run is scored
    /// and done.
    pub fn on_applied(&mut self) -> (a: Action)
        requires
            old(self).phase == Phase::Applying,
        ensures
            final(self).config == old(self).config,
            recs_view(final(self).records@) == recs_view(old(self).records@),
            final(self).phase == Phase::Done,
            a == Action::Report,
            (final(self).outcome matches Some(o) && final(self).scored(o)),
    {
        let o = score(
            &self.records,
            self.config.warning_threshold,
            self.config.critical_threshold,
            self.config.apply_updates,
        );
        self.outcome = Some(o);
        self.phase = Phase::Done;
        Action::Report
    }
}

} // verus!
