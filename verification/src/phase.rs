//! The shared state of one transaction session: the collections that
//! the per-category notification listeners append to, the completion
//! flag, and the error slot.
//!
//! The caller runs the listeners concurrently under a mutual-exclusion
//! primitive and polls [`PhaseState::is_complete`]; each handler here
//! only ever appends to its own category's collection, so deliveries
//! may interleave across categories in any order.

use vstd::prelude::*;

use crate::updates::{classify_security, classify_security_spec, DetailNote};

verus! {

/// Aggregation state of one phase's notification stream.
#[derive(Debug)]
pub struct PhaseState {
    /// Package identifiers from package-found notifications, in
    /// delivery order, duplicates preserved.
    pub packages: Vec<String>,
    /// Security classifications from update-detail notifications, in
    /// delivery order.
    pub details: Vec<DetailNote>,
    /// Whether a completion notification has arrived.
    pub finished: bool,
    /// The detail text of the last error notification, if any.
    pub error: Option<String>,
}

impl PhaseState {
    /// Fresh state: nothing received yet.
    pub fn new() -> (r: PhaseState)
        ensures
            r.packages@.len() == 0,
            r.details@.len() == 0,
            !r.finished,
            r.error is None,
    {
        PhaseState { packages: Vec::new(), details: Vec::new(), finished: false, error: None }
    }

    /// Records a package-found notification: appends the identifier,
    /// touching nothing else.
    pub fn on_package(&mut self, package_id: String)
        ensures
            final(self).packages@ == old(self).packages@.push(package_id),
            final(self).details@ == old(self).details@,
            final(self).finished == old(self).finished,
            final(self).error == old(self).error,
    {
        self.packages.push(package_id);
    }

    /// Records an update-detail notification: classifies the package
    /// (non-empty CVE list, or the advisory marker in the update text
    /// or changelog) and appends the note, touching nothing else.
    pub fn on_update_detail(
        &mut self,
        package_id: String,
        cve_urls: &Vec<String>,
        update_text: &str,
        changelog: &str,
    )
        ensures
            final(self).details@ == old(self).details@.push(
                DetailNote {
                    package_id,
                    is_security: classify_security_spec(
                        cve_urls@.len() as nat,
                        update_text@,
                        changelog@,
                    ),
                },
            ),
            final(self).packages@ == old(self).packages@,
            final(self).finished == old(self).finished,
            final(self).error == old(self).error,
    {
        let is_security = classify_security(cve_urls, update_text, changelog);
        self.details.push(DetailNote { package_id, is_security });
    }

    /// Records a completion notification.
    pub fn on_finished(&mut self)
        ensures
            final(self).finished,
            final(self).packages@ == old(self).packages@,
            final(self).details@ == old(self).details@,
            final(self).error == old(self).error,
    {
        self.finished = true;
    }

    /// Records an error notification: the last one received wins.
    pub fn on_error(&mut self, details: String)
        ensures
            final(self).error == Some(details),
            final(self).packages@ == old(self).packages@,
            final(self).details@ == old(self).details@,
            final(self).finished == old(self).finished,
    {
        self.error = Some(details);
    }

    /// Whether the phase's completion notification has arrived: what
    /// the caller's poll loop waits on.
    pub fn is_complete(&self) -> (r: bool)
        ensures
            r == self.finished,
    {
        self.finished
    }

    /// The phase's outcome once polling ends: an error notification
    /// fails the phase with the service-supplied detail text even when
    /// a completion notification was also received — error takes
    /// precedence over completion.
    pub fn outcome(&self) -> (r: Result<(), String>)
        ensures
            r is Err <==> self.error is Some,
            r matches Err(m) ==> self.error matches Some(e) && m@ == e@,
    {
        match &self.error {
            Some(e) => Err(e.clone()),
            None => Ok(()),
        }
    }
}

} // verus!
