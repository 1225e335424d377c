//! The report of an import job: created when the job starts, closed once by
//! whoever gets there first, the job itself or the sweep for stale reports.

use crate::item::{ImportResultResponse, ImportResultResponseView};
use crate::media::MediaImportSource;
use crate::time::Timestamp;
use vstd::prelude::*;

verus! {

/// The ledger entry of one import job. `success` is unset while the job
/// runs, `Some(true)` once it has completed and `Some(false)` once it has
/// failed or was declared dead.
#[derive(Debug, PartialEq)]
pub struct ImportReport {
    pub id: i32,
    pub user_id: i32,
    pub source: MediaImportSource,
    pub started_on: Timestamp,
    pub finished_on: Option<Timestamp>,
    pub success: Option<bool>,
    pub details: Option<ImportResultResponse>,
}

pub struct ImportReportView {
    pub id: i32,
    pub user_id: i32,
    pub source: MediaImportSource,
    pub started_on: Timestamp,
    pub finished_on: Option<Timestamp>,
    pub success: Option<bool>,
    pub details: Option<ImportResultResponseView>,
}

impl View for ImportReport {
    type V = ImportReportView;

    open spec fn view(&self) -> ImportReportView {
        ImportReportView {
            id: self.id,
            user_id: self.user_id,
            source: self.source,
            started_on: self.started_on,
            finished_on: self.finished_on,
            success: self.success,
            details: self.details.deep_view(),
        }
    }
}

impl DeepView for ImportReport {
    type V = ImportReportView;

    open spec fn deep_view(&self) -> ImportReportView {
        self@
    }
}

impl Clone for ImportReport {
    fn clone(&self) -> (copy: Self)
        ensures
            copy@ == self@,
    {
        let details = match &self.details {
            Some(details) => Some(details.clone()),
            None => None,
        };
        ImportReport {
            id: self.id,
            user_id: self.user_id,
            source: self.source,
            started_on: self.started_on,
            finished_on: self.finished_on,
            success: self.success,
            details,
        }
    }
}

impl ImportReportView {
    /// The report of a job of `user_id` on `source` that starts at `now`.
    pub open spec fn started(
        id: i32,
        user_id: i32,
        source: MediaImportSource,
        now: Timestamp,
    ) -> ImportReportView {
        ImportReportView {
            id,
            user_id,
            source,
            started_on: now,
            finished_on: None,
            success: None,
            details: None,
        }
    }

    /// Whether the job is still taken to be running.
    pub open spec fn is_running(self) -> bool {
        self.success.is_none()
    }

    /// The report after its job ended at `now` with `success` and `details`.
    /// A report that is closed already stays as it is.
    pub open spec fn finished(
        self,
        now: Timestamp,
        success: bool,
        details: ImportResultResponseView,
    ) -> ImportReportView {
        if self.is_running() {
            ImportReportView {
                finished_on: Some(now),
                success: Some(success),
                details: Some(details),
                ..self
            }
        } else {
            self
        }
    }

    /// Whether the sweep at `now` declares the job dead: the report is
    /// still running and older than twenty-four hours.
    pub open spec fn is_stale_at(self, now: Timestamp) -> bool {
        self.is_running() && self.started_on.spec_stale_at(now)
    }

    /// The report after the sweep at `now`.
    pub open spec fn invalidated(self, now: Timestamp) -> ImportReportView {
        if self.is_stale_at(now) {
            ImportReportView { success: Some(false), ..self }
        } else {
            self
        }
    }
}

impl ImportReport {
    /// The report of a job of `user_id` on `source` that starts at `now`.
    pub fn start(id: i32, user_id: i32, source: MediaImportSource, now: Timestamp) -> (report:
        ImportReport)
        ensures
            report@ == ImportReportView::started(id, user_id, source, now),
    {
        ImportReport {
            id,
            user_id,
            source,
            started_on: now,
            finished_on: None,
            success: None,
            details: None,
        }
    }

    /// Whether the job is still taken to be running.
    pub fn is_running(&self) -> (running: bool)
        ensures
            running == self@.is_running(),
    {
        self.success.is_none()
    }

    /// Closes the report of a job that ended at `now`. Says whether the
    /// report was still open; one that was closed before is left alone.
    pub fn finish(&mut self, now: Timestamp, success: bool, details: ImportResultResponse) -> (closed:
        bool)
        ensures
            closed == old(self)@.is_running(),
            final(self)@ == old(self)@.finished(now, success, details@),
    {
        if self.success.is_none() {
            self.finished_on = Some(now);
            self.success = Some(success);
            self.details = Some(details);
            true
        } else {
            false
        }
    }

    /// Whether the sweep at `now` declares the job dead.
    pub fn is_stale_at(&self, now: &Timestamp) -> (stale: bool)
        ensures
            stale == self@.is_stale_at(*now),
    {
        self.success.is_none() && self.started_on.stale_at(now)
    }

    /// Declares the job dead where the report is stale at `now`. Says
    /// whether it did.
    pub fn invalidate(&mut self, now: &Timestamp) -> (flipped: bool)
        ensures
            flipped == old(self)@.is_stale_at(*now),
            final(self)@ == old(self)@.invalidated(*now),
    {
        if self.is_stale_at(now) {
            self.success = Some(false);
            true
        } else {
            false
        }
    }
}

/// The reports after the sweep at `now`, each in its place.
pub open spec fn swept(reports: Seq<ImportReportView>, now: Timestamp) -> Seq<ImportReportView> {
    Seq::new(reports.len(), |k: int| reports[k].invalidated(now))
}

/// The places of the reports that the sweep at `now` declares dead, in
/// ascending order.
pub open spec fn stale_positions(reports: Seq<ImportReportView>, now: Timestamp) -> Seq<usize>
    decreases reports.len(),
{
    if reports.len() == 0 {
        Seq::empty()
    } else {
        let before = stale_positions(reports.drop_last(), now);
        if reports.last().is_stale_at(now) {
            before.push((reports.len() - 1) as usize)
        } else {
            before
        }
    }
}

/// The reports of `user_id` among `reports`, in the order of `reports`.
pub open spec fn of_user(reports: Seq<ImportReportView>, user_id: i32) -> Seq<ImportReportView> {
    reports.filter(|report: ImportReportView| report.user_id == user_id)
}

/// Whether `reports` runs from the newest to the oldest: no report began
/// later than one that stands before it.
pub open spec fn newest_first(reports: Seq<ImportReportView>) -> bool {
    forall|a: int, b: int|
        0 <= a <= b < reports.len() ==> reports[a].started_on.as_nanos()
            >= reports[b].started_on.as_nanos()
}

} // verus!
