//! What holds of the service as a whole, stated over the models that the
//! contracts speak of.

use crate::item::{
    ImportItemIdentifierView, ImportItemView, ImportResultResponseView, ImportResultView,
};
use crate::pipeline::{
    commit_action, ImportActionView, ImportEventView, ImportRunView, ImportStage,
};
use crate::report::{of_user, stale_positions, swept, ImportReportView};
use crate::request::{intake, trim_end, DeployImportInputView};
use crate::time::Timestamp;
use vstd::prelude::*;

verus! {

/// The state of a job after the events `events`, one step each, from
/// `state`.
pub open spec fn run(state: ImportRunView, events: Seq<ImportEventView>) -> ImportRunView
    decreases events.len(),
{
    if events.len() == 0 {
        state
    } else {
        run(state, events.drop_last()).step(events.last()).0
    }
}

/// How many of the events `events`, fed to a job from `state`, are commits
/// that failed: events that reach the job while it is committing an item and
/// do not say that the item is committed.
pub open spec fn failed_commits(state: ImportRunView, events: Seq<ImportEventView>) -> nat
    decreases events.len(),
{
    if events.len() == 0 {
        0
    } else {
        let earlier = failed_commits(state, events.drop_last());
        let committing = run(state, events.drop_last()).stage == ImportStage::Committing;
        if committing && !(events.last() is Committed) {
            earlier + 1
        } else {
            earlier
        }
    }
}

/// Whether every event fits in memory.
pub open spec fn all_fit(events: Seq<ImportEventView>) -> bool {
    forall|k: int| 0 <= k < events.len() ==> (#[trigger] events[k]).fits()
}

/// The history that a job took in while it was fed the events `events` from
/// `state`: what the source handed over while the job was fetching.
pub open spec fn history(state: ImportRunView, events: Seq<ImportEventView>) -> Option<
    ImportResultView,
>
    decreases events.len(),
{
    if events.len() == 0 {
        None
    } else {
        match events.last() {
            ImportEventView::Imported(result) if run(state, events.drop_last()).stage
                == ImportStage::Fetching => Some(result),
            _ => history(state, events.drop_last()),
        }
    }
}

/// How many actions an item calls for where everything goes well: its
/// commit, one for each entry of what was seen, one for each review, two for
/// each collection.
pub open spec fn actions_of(item: ImportItemView) -> int {
    (1 + item.seen_history.len() + item.reviews.len() + 2 * item.collections.len()) as int
}

/// How many actions the items from place `from` on call for.
pub open spec fn actions_from(media: Seq<ImportItemView>, from: int) -> int
    decreases media.len() - from,
{
    if 0 <= from < media.len() {
        actions_of(media[from]) + actions_from(media, from + 1)
    } else {
        0
    }
}

/// At most how many steps a job that has its history still needs to come
/// to its end.
pub open spec fn steps_left(state: ImportRunView) -> int {
    let item = state.current();
    let others = actions_from(state.media, state.item + 1);
    match state.stage {
        ImportStage::AwaitingReport | ImportStage::Fetching => 0,
        ImportStage::UpsertingCollection => (state.collections.len() - state.cursor) + actions_from(
            state.media,
            0,
        ) + 3,
        ImportStage::Committing => actions_from(state.media, state.item) + 3,
        ImportStage::ReplayingSeen => (item.seen_history.len() - state.cursor) + item.reviews.len()
            + 2 * item.collections.len() + others + 3,
        ImportStage::PostingReview => (item.reviews.len() - state.cursor) + 2
            * item.collections.len() + others + 3,
        ImportStage::UpsertingItemCollection => 2 * (item.collections.len() - state.cursor) + others
            + 3,
        ImportStage::AddingToCollection => 2 * (item.collections.len() - state.cursor) - 1 + others
            + 3,
        ImportStage::Recalculating => 3,
        ImportStage::Finishing => 2,
        ImportStage::Failing => 1,
        ImportStage::Finished | ImportStage::Aborted => 0,
    }
}

/// Intake accepts a request exactly when the credentials of the declared
/// source are present and those of no other source are; a request whose
/// credentials do not match its source yields an error and no job.
pub proof fn law_intake_accepts_matching_payload(user_id: i32, input: DeployImportInputView)
    ensures
        intake(user_id, input) is Ok <==> input.has_source_payload() && !input.has_other_payload(),
        intake(user_id, input) matches Ok(job) ==> job.user_id == user_id && job.input.source
            == input.source && job.input.goodreads == input.goodreads,
        intake(user_id, input) matches Ok(job) ==> (input.media_tracker matches Some(given)
            ==> job.input.media_tracker matches Some(queued) && queued.api_key == given.api_key
            && queued.api_url == trim_end(given.api_url, '/')),
{
}

/// A step takes the history in where the job is fetching and the source
/// hands it over; no other step changes the items or the collections of the
/// job.
pub proof fn law_history_is_kept(state: ImportRunView, event: ImportEventView)
    ensures
        state.stage == ImportStage::Fetching ==> (event matches ImportEventView::Imported(result)
            ==> state.step(event).0.media == result.media && state.step(event).0.collections
            == result.collections),
        state.stage != ImportStage::Fetching ==> state.step(event).0.media == state.media
            && state.step(event).0.collections == state.collections,
        state.step(event).0.user_id == state.user_id,
        state.step(event).0.input == state.input,
{
}

/// Whatever happens to a job, its state stays valid, and its ledger holds
/// one entry for each commit that failed.
pub proof fn law_ledger_counts_failed_commits(
    user_id: i32,
    input: DeployImportInputView,
    events: Seq<ImportEventView>,
)
    requires
        input.has_source_payload(),
        all_fit(events),
    ensures
        run(ImportRunView::begin(user_id, input).0, events).valid(),
        run(ImportRunView::begin(user_id, input).0, events).failed_items.len() == failed_commits(
            ImportRunView::begin(user_id, input).0,
            events,
        ),
    decreases events.len(),
{
    let start = ImportRunView::begin(user_id, input).0;
    if events.len() > 0 {
        let earlier = events.drop_last();
        assert forall|k: int| 0 <= k < earlier.len() implies (#[trigger] earlier[k]).fits() by {
            assert(earlier[k] == events[k]);
        }
        law_ledger_counts_failed_commits(user_id, input, earlier);
        let before = run(start, earlier);
        assert(events.last().fits());
        crate::pipeline::lemma_step_valid(before, events.last());
    }
}

/// Where a job completes a history of N items of which F failed at the
/// commit step, the report is closed with N − F as the number imported and
/// with a ledger of F entries: closing the report of the job, still open,
/// with the outcome that the job hands out gives a report that succeeded
/// and holds these counts.
pub proof fn law_completed_report_counts(
    user_id: i32,
    input: DeployImportInputView,
    events: Seq<ImportEventView>,
    last: ImportEventView,
    now: Timestamp,
)
    requires
        input.has_source_payload(),
        all_fit(events),
    ensures
        ({
            let start = ImportRunView::begin(user_id, input).0;
            let state = run(start, events);
            let failed = failed_commits(start, events);
            state.step(last).1 matches ImportActionView::FinishImportJob { report, success, details }
                ==> success ==> {
                &&& history(start, events) matches Some(handed) && handed.media == state.media
                &&& failed <= state.media.len()
                &&& details.import.total == state.media.len() - failed
                &&& details.failed_items.len() == failed
                &&& report.is_running() ==> {
                    let closed = report.finished(now, success, details);
                    &&& closed.success == Some(true)
                    &&& closed.finished_on == Some(now)
                    &&& closed.details matches Some(held) && held.import.total == state.media.len()
                        - failed && held.failed_items.len() == failed
                }
            }
        }),
{
    law_ledger_counts_failed_commits(user_id, input, events);
    law_history_is_taken_once(user_id, input, events);
}

/// A job takes its history in once. Until then it has no items and no
/// collections; from then on its items and collections are those that the
/// source handed over, and the job never fetches again.
pub proof fn law_history_is_taken_once(
    user_id: i32,
    input: DeployImportInputView,
    events: Seq<ImportEventView>,
)
    ensures
        ({
            let start = ImportRunView::begin(user_id, input).0;
            let state = run(start, events);
            match history(start, events) {
                None => {
                    &&& state.media.len() == 0
                    &&& state.collections.len() == 0
                    &&& state.stage == ImportStage::AwaitingReport || state.stage
                        == ImportStage::Fetching || state.stage == ImportStage::Failing
                        || state.stage == ImportStage::Aborted
                },
                Some(handed) => {
                    &&& state.media == handed.media
                    &&& state.collections == handed.collections
                    &&& state.stage != ImportStage::AwaitingReport
                    &&& state.stage != ImportStage::Fetching
                },
            }
        }),
    decreases events.len(),
{
    if events.len() > 0 {
        law_history_is_taken_once(user_id, input, events.drop_last());
    }
}

/// A job that has its history comes to its end: every step brings the end
/// closer, whatever the event, and a job that is over has no steps left.
pub proof fn law_every_step_brings_the_end_closer(state: ImportRunView, event: ImportEventView)
    requires
        state.valid(),
        event.fits(),
        state.stage != ImportStage::AwaitingReport,
        state.stage != ImportStage::Fetching,
    ensures
        steps_left(state) >= 0,
        steps_left(state) == 0 <==> state.stage == ImportStage::Finished || state.stage
            == ImportStage::Aborted,
        steps_left(state) > 0 ==> steps_left(state.step(event).0) < steps_left(state),
        steps_left(state) == 0 ==> state.step(event).0 == state,
{
    let next = state.step(event).0;
    lemma_actions_from_is_a_count(state.media, 0);
    lemma_actions_from_is_a_count(state.media, state.item);
    lemma_actions_from_is_a_count(state.media, state.item + 1);
    lemma_actions_from_is_a_count(state.media, state.item + 2);
    lemma_actions_from_is_a_count(next.media, next.item);
    lemma_actions_from_is_a_count(next.media, next.item + 1);
}

/// The items from any place on call for no fewer than no actions.
pub proof fn lemma_actions_from_is_a_count(media: Seq<ImportItemView>, from: int)
    ensures
        actions_from(media, from) >= 0,
    decreases media.len() - from,
{
    if 0 <= from < media.len() {
        lemma_actions_from_is_a_count(media, from + 1);
    }
}

/// A job that is fetching has its history, or is given up, with the next
/// step; a job that awaits its report fetches, or is given up, with the
/// next step.
pub proof fn law_fetching_takes_one_step(state: ImportRunView, event: ImportEventView)
    requires
        state.valid(),
        event.fits(),
    ensures
        state.stage == ImportStage::AwaitingReport ==> state.step(event).0.stage
            == ImportStage::Fetching || state.step(event).0.stage == ImportStage::Aborted,
        state.stage == ImportStage::Fetching ==> state.step(event).0.stage
            != ImportStage::AwaitingReport && state.step(event).0.stage != ImportStage::Fetching,
{
}

/// A job closes its report as completed only once it has turned to every
/// item of the history, and as failed only with an entry for what it gave
/// up over at the end of the ledger.
pub proof fn law_report_is_closed_at_the_end(state: ImportRunView, event: ImportEventView)
    requires
        state.valid(),
    ensures
        state.step(event).1 matches ImportActionView::FinishImportJob { report, success, details }
            ==> {
            &&& state.report == Some(report)
            &&& details.source == report.source
            &&& success ==> state.item == state.media.len() && details.failed_items
                == state.failed_items
            &&& !success ==> details.failed_items.len() == state.failed_items.len() + 1
                && details.failed_items.drop_last() == state.failed_items
                && details.failed_items.last().error == event.reason()
                && details.import.total == state.item - state.failed_items.len()
        },
{
    let (next, action) = state.step(event);
    if let ImportActionView::FinishImportJob { report, success, details } = action {
        if !success {
            assert(details.failed_items.drop_last() =~= state.failed_items);
        }
    }
}

/// An item is committed in the way its identifier calls for, and the items
/// are turned to in their order. Whenever a step turns to an item, and only
/// then, its action is a commit: resolution by identifier where the item
/// needs details, never where it brings them; the details as they are where
/// the item brings them.
pub proof fn law_commit_follows_identifier(state: ImportRunView, event: ImportEventView)
    requires
        state.valid(),
        event.fits(),
    ensures
        ({
            let (next, action) = state.step(event);
            let turns = next.stage == ImportStage::Committing;
            &&& turns <==> (action is CommitMedia || action is CommitMediaInternal)
            &&& turns ==> 0 <= next.item < next.media.len()
            &&& turns ==> next.item == (if state.before_items() {
                0
            } else {
                state.item + 1
            })
            &&& turns ==> action == commit_action(next.current())
            &&& turns ==> (next.current().identifier matches ImportItemIdentifierView::NeedsDetails(
                identifier,
            ) ==> action matches ImportActionView::CommitMedia { identifier: asked, lot, source }
                && asked == identifier && lot == next.current().lot && source
                == next.current().source)
            &&& turns ==> (next.current().identifier matches ImportItemIdentifierView::AlreadyFilled(
                details,
            ) ==> action == ImportActionView::CommitMediaInternal(details))
        }),
{
}

/// How many items a job in state `state` has turned to for certain: the
/// items before the one at hand, and the one at hand while the job deals
/// with it.
pub open spec fn items_turned_to(state: ImportRunView) -> int {
    if state.at_item() {
        state.item + 1
    } else {
        state.item
    }
}

/// Whether a job that is fed `events` from `state` turns to the item at
/// place `place` with the event of number `count`: that event leaves the job
/// committing the item, and the action handed out on it is the commit that
/// the identifier of the item calls for.
pub open spec fn turns_to(
    state: ImportRunView,
    events: Seq<ImportEventView>,
    place: int,
    count: int,
) -> bool {
    let fed = events.take(count);
    let reached = run(state, fed);
    &&& 0 < count <= events.len()
    &&& reached.stage == ImportStage::Committing
    &&& reached.item == place
    &&& 0 <= place < reached.media.len()
    &&& run(state, fed.drop_last()).step(fed.last()).1 == commit_action(reached.media[place])
}

/// No item is passed over: a job has turned to every item before the one at
/// hand, and to the one at hand while it deals with it, each with the commit
/// that its identifier calls for. A job that completes has so turned to
/// every item of its history.
pub proof fn law_every_item_is_turned_to(
    user_id: i32,
    input: DeployImportInputView,
    events: Seq<ImportEventView>,
    place: int,
)
    requires
        input.has_source_payload(),
        all_fit(events),
        0 <= place < items_turned_to(run(ImportRunView::begin(user_id, input).0, events)),
    ensures
        exists|count: int|
            turns_to(ImportRunView::begin(user_id, input).0, events, place, count),
        run(ImportRunView::begin(user_id, input).0, events).stage == ImportStage::Finished
            ==> items_turned_to(run(ImportRunView::begin(user_id, input).0, events)) == run(
            ImportRunView::begin(user_id, input).0,
            events,
        ).media.len(),
    decreases events.len(),
{
    let start = ImportRunView::begin(user_id, input).0;
    law_ledger_counts_failed_commits(user_id, input, events);
    lemma_finished_job_turned_to_all(user_id, input, events);
    if events.len() > 0 {
        let earlier = events.drop_last();
        let before = run(start, earlier);
        assert forall|k: int| 0 <= k < earlier.len() implies (#[trigger] earlier[k]).fits() by {
            assert(earlier[k] == events[k]);
        }
        law_ledger_counts_failed_commits(user_id, input, earlier);
        law_commit_follows_identifier(before, events.last());
        if place < items_turned_to(before) {
            law_every_item_is_turned_to(user_id, input, earlier, place);
            let count = choose|count: int| turns_to(start, earlier, place, count);
            assert(events.take(count) =~= earlier.take(count));
            assert(turns_to(start, events, place, count));
        } else {
            assert(events.take(events.len() as int) =~= events);
            assert(turns_to(start, events, place, events.len() as int));
        }
    }
}

/// A job finishes only once it has been through all its items.
proof fn lemma_finished_job_turned_to_all(
    user_id: i32,
    input: DeployImportInputView,
    events: Seq<ImportEventView>,
)
    requires
        input.has_source_payload(),
        all_fit(events),
    ensures
        ({
            let state = run(ImportRunView::begin(user_id, input).0, events);
            state.stage == ImportStage::Finishing || state.stage == ImportStage::Finished
                ==> state.item == state.media.len()
        }),
    decreases events.len(),
{
    if events.len() > 0 {
        let earlier = events.drop_last();
        assert forall|k: int| 0 <= k < earlier.len() implies (#[trigger] earlier[k]).fits() by {
            assert(earlier[k] == events[k]);
        }
        lemma_finished_job_turned_to_all(user_id, input, earlier);
        law_ledger_counts_failed_commits(user_id, input, earlier);
    }
}

/// A commit that fails costs the job one ledger entry and nothing else: the
/// job goes on with the next item.
pub proof fn law_failed_commit_is_isolated(state: ImportRunView, event: ImportEventView)
    requires
        state.valid(),
        state.stage == ImportStage::Committing,
        !(event is Committed),
    ensures
        ({
            let (next, action) = state.step(event);
            &&& next.failed_items == state.failed_items.push(
                state.current().failed_commit(event.reason()),
            )
            &&& next.item == state.item + 1
            &&& next.stage == ImportStage::Committing || next.stage == ImportStage::Recalculating
            &&& !(action is FinishImportJob) && !(action is Abort)
        }),
{
}

/// The sweep declares a report failed exactly when the report is still
/// running and older than twenty-four hours. It changes nothing but
/// `success`, and nothing at all of a report that is closed.
pub proof fn law_sweep_flips_exactly_stale(report: ImportReportView, now: Timestamp)
    ensures
        report.invalidated(now).success != report.success <==> report.success.is_none()
            && now.as_nanos() - report.started_on.as_nanos() > 86_400_000_000_000,
        report.invalidated(now).success != report.success ==> report.invalidated(now).success
            == Some(false),
        report.invalidated(now) == (ImportReportView {
            success: report.invalidated(now).success,
            ..report
        }),
        report.success.is_some() ==> report.invalidated(now) == report,
{
}

/// The sweep is idempotent: a second sweep, whenever it runs, leaves every
/// report alone that was closed before the first, and every report that the
/// first one declared failed.
pub proof fn law_sweep_is_idempotent(report: ImportReportView, first: Timestamp, second: Timestamp)
    ensures
        report.invalidated(first).invalidated(first) == report.invalidated(first),
        report.success.is_some() ==> report.invalidated(first).invalidated(second).success
            == report.success,
        report.invalidated(first).success.is_some() ==> report.invalidated(first).invalidated(
            second,
        ) == report.invalidated(first),
{
}

/// The sweep over a ledger is idempotent, it keeps every report in its
/// place, and it changes exactly the reports that are stale.
pub proof fn law_swept_ledger(reports: Seq<ImportReportView>, now: Timestamp)
    ensures
        swept(reports, now).len() == reports.len(),
        swept(swept(reports, now), now) == swept(reports, now),
        forall|k: int|
            0 <= k < reports.len() ==> (#[trigger] swept(reports, now)[k] != reports[k]
                <==> reports[k].is_stale_at(now)),
        forall|k: int|
            0 <= k < reports.len() && reports[k].success.is_some() ==> #[trigger] swept(
                reports,
                now,
            )[k] == reports[k],
{
    assert(swept(swept(reports, now), now) =~= swept(reports, now));
}

/// The success of a report changes once: a report that is closed is changed
/// neither by the end of its job nor by the sweep.
pub proof fn law_closed_report_stays_closed(
    report: ImportReportView,
    now: Timestamp,
    success: bool,
    details: ImportResultResponseView,
)
    requires
        report.success.is_some(),
    ensures
        report.finished(now, success, details) == report,
        report.invalidated(now) == report,
{
}

/// The sweep names exactly the places of the stale reports, each once and
/// in ascending order.
pub proof fn law_stale_positions(reports: Seq<ImportReportView>, now: Timestamp)
    requires
        reports.len() <= usize::MAX,
    ensures
        forall|k: int|
            0 <= k < stale_positions(reports, now).len() ==> {
                &&& (#[trigger] stale_positions(reports, now)[k]) < reports.len()
                &&& reports[stale_positions(reports, now)[k] as int].is_stale_at(now)
            },
        forall|a: int, b: int|
            0 <= a < b < stale_positions(reports, now).len() ==> stale_positions(reports, now)[a]
                < stale_positions(reports, now)[b],
        forall|place: int|
            0 <= place < reports.len() && (#[trigger] reports[place]).is_stale_at(now)
                ==> stale_positions(reports, now).contains(place as usize),
    decreases reports.len(),
{
    if reports.len() > 0 {
        let earlier = reports.drop_last();
        law_stale_positions(earlier, now);
        let found = stale_positions(reports, now);
        let before = stale_positions(earlier, now);
        assert forall|place: int|
            0 <= place < reports.len() && (#[trigger] reports[place]).is_stale_at(
                now,
            ) implies found.contains(place as usize) by {
            if place < earlier.len() {
                assert(earlier[place] == reports[place]);
                assert(before.contains(place as usize));
                let k = choose|k: int| 0 <= k < before.len() && before[k] == place as usize;
                assert(found[k] == place as usize);
            } else {
                assert(found.last() == place as usize);
            }
        }
        assert forall|k: int| 0 <= k < found.len() implies {
            &&& (#[trigger] found[k]) < reports.len()
            &&& reports[found[k] as int].is_stale_at(now)
        } by {
            if k < before.len() {
                assert(found[k] == before[k]);
                assert(earlier[before[k] as int] == reports[before[k] as int]);
            } else {
                assert(found[k] == (reports.len() - 1) as usize);
            }
        }
        assert forall|a: int, b: int| 0 <= a < b < found.len() implies found[a] < found[b] by {
            assert(found[a] == before[a]);
            assert(before[a] < earlier.len());
            if b < before.len() {
                assert(found[b] == before[b]);
            } else {
                assert(found[b] == (reports.len() - 1) as usize);
            }
        }
    }
}

/// A listing that holds the reports of a user, each once, holds as many
/// reports as the ledger has of that user, only reports of that user, and
/// every report of that user that the ledger has.
pub proof fn law_listing_is_exact(
    reports: Seq<ImportReportView>,
    listed: Seq<ImportReportView>,
    user_id: i32,
)
    requires
        listed.to_multiset() == of_user(reports, user_id).to_multiset(),
    ensures
        listed.len() == of_user(reports, user_id).len(),
        listed.len() <= reports.len(),
        forall|report: ImportReportView|
            listed.contains(report) <==> reports.contains(report) && report.user_id == user_id,
{
    let mine = of_user(reports, user_id);
    let belongs = |report: ImportReportView| report.user_id == user_id;
    vstd::seq_lib::to_multiset_len(listed);
    vstd::seq_lib::to_multiset_len(mine);
    reports.lemma_filter_len(belongs);
    assert forall|report: ImportReportView|
        listed.contains(report) <==> reports.contains(report) && report.user_id
            == user_id by {
        vstd::seq_lib::to_multiset_contains(listed, report);
        vstd::seq_lib::to_multiset_contains(mine, report);
        if mine.contains(report) {
            let k = choose|k: int| 0 <= k < mine.len() && mine[k] == report;
            reports.lemma_filter_pred(belongs, k);
            reports.lemma_filter_contains_rev(belongs, report);
        }
        if reports.contains(report) && report.user_id == user_id {
            let k = choose|k: int| 0 <= k < reports.len() && reports[k] == report;
            reports.lemma_filter_contains(belongs, k);
        }
    }
}

} // verus!
