//! The service as callers see it: intake, the sweep for stale reports, the
//! reports of a user, and the start of a job.

use crate::pipeline::{ImportAction, ImportRun, ImportRunView};
use crate::report::{
    newest_first, of_user, stale_positions, swept, ImportReport, ImportReportView,
};
use crate::request::{intake, DeployImportInput, ImportMedia, ImportMediaView, ValidationError};
use crate::time::Timestamp;
use vstd::prelude::*;

verus! {

/// The import service. It keeps nothing itself: queue and ledger are the
/// caller's, and every method works on what the caller hands in.
#[derive(Clone, Copy, Debug)]
pub struct ImporterService {}

impl ImporterService {
    pub fn new() -> (service: ImporterService) {
        ImporterService {  }
    }

    /// Intake of a request of `user_id`. A request is accepted exactly when
    /// the credentials of its declared source, and no others, are present;
    /// the job to queue then holds the request with the base url of a
    /// MediaTracker instance free of trailing slashes. A request that is
    /// turned away yields no job, so nothing can be queued for it.
    pub fn deploy_import(&self, user_id: i32, input: DeployImportInput) -> (queued: Result<
        ImportMedia,
        ValidationError,
    >)
        ensures
            match queued {
                Ok(job) => intake(user_id, input@) == Ok::<ImportMediaView, ValidationError>(job@),
                Err(reason) => intake(user_id, input@) == Err::<ImportMediaView, ValidationError>(
                    reason,
                ),
            },
    {
        match input.validate() {
            Ok(_) => Ok(ImportMedia { user_id, input: input.normalized() }),
            Err(reason) => Err(reason),
        }
    }

    /// The sweep at `now`: every report that is still running and older
    /// than twenty-four hours is declared failed, every other report stays
    /// as it is. Hands back the places of the reports it changed, in
    /// ascending order.
    pub fn invalidate_import_jobs(&self, reports: &mut Vec<ImportReport>, now: Timestamp) -> (flipped:
        Vec<usize>)
        ensures
            final(reports).len() == old(reports).len(),
            final(reports).deep_view() == swept(old(reports).deep_view(), now),
            flipped@ == stale_positions(old(reports).deep_view(), now),
    {
        let ghost before = reports.deep_view();
        let mut flipped: Vec<usize> = Vec::new();
        let mut at: usize = 0;
        assert(before.take(0) =~= Seq::empty());
        while at < reports.len()
            invariant
                at <= reports.len(),
                reports.len() == before.len(),
                forall|k: int| 0 <= k < at ==> reports[k]@ == before[k].invalidated(now),
                forall|k: int| at <= k < reports.len() ==> reports[k]@ == before[k],
                flipped@ == stale_positions(before.take(at as int), now),
            decreases reports.len() - at,
        {
            let dead = reports[at].invalidate(&now);
            if dead {
                flipped.push(at);
            }
            assert(before.take(at + 1).drop_last() =~= before.take(at as int));
            at += 1;
        }
        assert(before.take(at as int) =~= before);
        assert(reports.deep_view() =~= swept(before, now));
        flipped
    }

    /// The reports of the jobs of `user_id` among `reports`, each of them
    /// once, from the newest to the oldest.
    pub fn media_import_reports(&self, reports: &Vec<ImportReport>, user_id: i32) -> (listed: Vec<
        ImportReport,
    >)
        ensures
            listed.deep_view().to_multiset() == of_user(reports.deep_view(), user_id).to_multiset(),
            newest_first(listed.deep_view()),
    {
        let ghost all = reports.deep_view();
        let mut listed: Vec<ImportReport> = Vec::new();
        let mut at: usize = 0;
        assert(all.take(0) =~= Seq::empty());
        assert(of_user(Seq::empty(), user_id) =~= Seq::empty());
        assert(listed.deep_view() =~= Seq::empty());
        while at < reports.len()
            invariant
                at <= reports.len(),
                all == reports.deep_view(),
                listed.deep_view().to_multiset() == of_user(
                    all.take(at as int),
                    user_id,
                ).to_multiset(),
                newest_first(listed.deep_view()),
            decreases reports.len() - at,
        {
            let ghost seen = all.take(at as int);
            assert(all.take(at + 1) =~= seen.push(all[at as int]));
            proof {
                seen.lemma_filter_push(
                    all[at as int],
                    |report: ImportReportView| report.user_id == user_id,
                );
            }
            if reports[at].user_id == user_id {
                let report = reports[at].clone();
                let ghost before = listed.deep_view();
                let mut place: usize = 0;
                while place < listed.len() && !report.started_on.after(&listed[place].started_on)
                    invariant
                        place <= listed.len(),
                        before == listed.deep_view(),
                        forall|k: int|
                            0 <= k < place ==> before[k].started_on.as_nanos()
                                >= report.started_on.as_nanos(),
                    decreases listed.len() - place,
                {
                    place += 1;
                }
                listed.insert(place, report);
                assert(listed.deep_view() =~= before.insert(place as int, report@));
                proof {
                    vstd::seq_lib::to_multiset_insert(before, place as int, report@);
                    vstd::seq_lib::to_multiset_build(of_user(seen, user_id), report@);
                }
            }
            at += 1;
        }
        assert(all.take(at as int) =~= all);
        listed
    }

    /// Starts the job for the request `input` of `user_id`: the state of
    /// the job and its first action, which is to create the report, before
    /// anything is fetched.
    pub fn import_from_source(&self, user_id: i32, input: DeployImportInput) -> (start: (
        ImportRun,
        ImportAction,
    ))
        requires
            input@.has_source_payload(),
        ensures
            (start.0@, start.1@) == ImportRunView::begin(user_id, input@),
            start.0@.valid(),
    {
        ImportRun::begin(user_id, input)
    }
}

} // verus!
