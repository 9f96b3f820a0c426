//! The four-level health verdict of the monitoring protocol and its
//! numeric exit-code mapping.

use vstd::prelude::*;

use vstd::string::StringExecFns;

verus! {

/// Severity of a probe run, ordered from healthy to unknown.
#[derive(Debug, Clone, Copy, PartialEq, Eq, Structural)]
pub enum NagiosStatus {
    Okay,
    Warning,
    Critical,
    Unknown,
}

impl NagiosStatus {
    /// The process exit code that the monitoring protocol assigns to
    /// this severity.
    pub fn exit_code(&self) -> (code: i32)
        ensures
            code == match *self {
                NagiosStatus::Okay => 0int,
                NagiosStatus::Warning => 1int,
                NagiosStatus::Critical => 2int,
                NagiosStatus::Unknown => 3int,
            },
    {
        match self {
            NagiosStatus::Okay => 0,
            NagiosStatus::Warning => 1,
            NagiosStatus::Critical => 2,
            NagiosStatus::Unknown => 3,
        }
    }

    /// The severity's name in the output protocol.
    pub open spec fn name_spec(self) -> Seq<char> {
        match self {
            NagiosStatus::Okay => "OK"@,
            NagiosStatus::Warning => "Warning"@,
            NagiosStatus::Critical => "Critical"@,
            NagiosStatus::Unknown => "Unknown"@,
        }
    }

    /// The severity's name in the output protocol.
    pub fn as_str(&self) -> (r: &'static str)
        ensures
            r@ == self.name_spec(),
    {
        match self {
            NagiosStatus::Okay => "OK",
            NagiosStatus::Warning => "Warning",
            NagiosStatus::Critical => "Critical",
            NagiosStatus::Unknown => "Unknown",
        }
    }
}

/// The severity that a security-update count earns against the two
/// thresholds: critical is checked first, and both comparisons are
/// inclusive, so a count meeting both thresholds is critical.
pub open spec fn severity_spec(count: nat, warning: nat, critical: nat) -> NagiosStatus {
    if count >= critical {
        NagiosStatus::Critical
    } else if count >= warning {
        NagiosStatus::Warning
    } else {
        NagiosStatus::Okay
    }
}

/// Scores a security-update count against the thresholds: critical
/// when `count >= critical`, else warning when `count >= warning`,
/// else healthy.
pub fn severity_for(count: usize, warning: usize, critical: usize) -> (r: NagiosStatus)
    ensures
        r == severity_spec(count as nat, warning as nat, critical as nat),
{
    if count >= critical {
        NagiosStatus::Critical
    } else if count >= warning {
        NagiosStatus::Warning
    } else {
        NagiosStatus::Okay
    }
}

/// One verdict of the probe: a severity, a human-readable message, and
/// optional performance counters.
#[derive(Debug)]
pub struct NagiosOutput {
    pub status: NagiosStatus,
    pub message: String,
    pub perfdata: Option<String>,
}

impl NagiosOutput {
    /// The single line of the output protocol: probe name, severity,
    /// message, and the performance counters when present.
    pub open spec fn rendered(self) -> Seq<char> {
        "UPDATE "@ + self.status.name_spec() + " - "@ + self.message@ + (
        match self.perfdata {
            Some(p) => " | "@ + p@,
            None => Seq::empty(),
        })
    }

    /// Renders the verdict as the protocol's single output line.
    pub fn render(&self) -> (r: String)
        ensures
            r@ == self.rendered(),
    {
        let mut out = String::new();
        out.append("UPDATE ");
        out.append(self.status.as_str());
        out.append(" - ");
        out.append(self.message.as_str());
        match &self.perfdata {
            Some(p) => {
                out.append(" | ");
                out.append(p.as_str());
            },
            None => {},
        }
        proof {
            assert(out@ =~= self.rendered());
        }
        out
    }
}

} // verus!
