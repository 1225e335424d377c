//! One import job as a machine. The machine decides; the caller acts. Each
//! step takes what happened to the last action and hands out the next one,
//! until the job has completed or was given up.

use crate::item::{
    ImportDetails, ImportFailStep, ImportFailedItem, ImportFailedItemView,
    ImportItem, ImportItemIdentifier, ImportItemIdentifierView, ImportItemView, ImportResult,
    ImportResultResponse, ImportResultResponseView, ImportResultView,
};
use crate::media::{
    AddMediaToCollection, AddMediaToCollectionView, CreateOrUpdateCollectionInput,
    CreateOrUpdateCollectionInputView, MediaDetails, MediaDetailsView, MediaImportSource,
    MetadataLot, MetadataSource, PostReviewInput, PostReviewInputView, ProgressUpdateInput,
    ProgressUpdateInputView,
};
use crate::report::{ImportReport, ImportReportView};
use crate::request::{
    DeployGoodreadsImportInput, DeployGoodreadsImportInputView, DeployImportInput,
    DeployImportInputView, DeployMediaTrackerImportInput, DeployMediaTrackerImportInputView,
};
use vstd::prelude::*;

verus! {

/// Where a job stands: what it has asked for and is waiting on.
#[derive(Clone, Copy, Debug, PartialEq, Eq, Structural)]
pub enum ImportStage {
    /// The report of the job has been asked for.
    AwaitingReport,
    /// The source has been asked for the history.
    Fetching,
    /// A collection of the history is being set up.
    UpsertingCollection,
    /// An item is being committed.
    Committing,
    /// An entry of what was seen of the item is being replayed.
    ReplayingSeen,
    /// A review of the item is being posted.
    PostingReview,
    /// A collection that the item belongs to is being set up.
    UpsertingItemCollection,
    /// The item is being put into a collection.
    AddingToCollection,
    /// The summary of the user is being recalculated.
    Recalculating,
    /// The report is being closed as completed.
    Finishing,
    /// The report is being closed as failed.
    Failing,
    /// The job has completed.
    Finished,
    /// The job was given up.
    Aborted,
}

/// What happened to the last action.
#[derive(Debug, PartialEq)]
pub enum ImportEvent {
    /// The report of the job exists.
    JobStarted(ImportReport),
    /// The source handed over the history.
    Imported(ImportResult),
    /// The item is committed; the media store holds it under this id.
    Committed(i32),
    /// The action went through.
    Done,
    /// The action failed, for the reason given.
    Failed(String),
}

pub enum ImportEventView {
    JobStarted(ImportReportView),
    Imported(ImportResultView),
    Committed(i32),
    Done,
    Failed(Seq<char>),
}

impl View for ImportEvent {
    type V = ImportEventView;

    open spec fn view(&self) -> ImportEventView {
        match self {
            ImportEvent::JobStarted(report) => ImportEventView::JobStarted(report@),
            ImportEvent::Imported(result) => ImportEventView::Imported(result@),
            ImportEvent::Committed(id) => ImportEventView::Committed(*id),
            ImportEvent::Done => ImportEventView::Done,
            ImportEvent::Failed(reason) => ImportEventView::Failed(reason@),
        }
    }
}

impl ImportEventView {
    /// The reason an event gives for a failure. An event that does not
    /// answer the action it follows counts as a failure without a reason.
    pub open spec fn reason(self) -> Option<Seq<char>> {
        match self {
            ImportEventView::Failed(reason) => Some(reason),
            _ => None,
        }
    }
}

impl ImportEvent {
    /// The reason the event gives for a failure.
    pub fn reason(self) -> (reason: Option<String>)
        ensures
            reason.deep_view() == self@.reason(),
    {
        match self {
            ImportEvent::Failed(reason) => Some(reason),
            _ => None,
        }
    }
}

/// What the caller is to do next.
#[allow(inconsistent_fields)]
#[derive(Debug, PartialEq)]
pub enum ImportAction {
    /// Create the report of the job, open and begun now.
    StartImportJob { user_id: i32, source: MediaImportSource },
    /// Fetch the history from a MediaTracker instance.
    ImportMediaTracker(DeployMediaTrackerImportInput),
    /// Fetch the history from a Goodreads feed.
    ImportGoodreads(DeployGoodreadsImportInput),
    /// Create the collection, or update the one of that name.
    CreateOrUpdateCollection { user_id: i32, input: CreateOrUpdateCollectionInput },
    /// Resolve the identifier with the provider and commit what it gives.
    CommitMedia { lot: MetadataLot, source: MetadataSource, identifier: String },
    /// Commit the details as they are.
    CommitMediaInternal(MediaDetails),
    /// Record progress on a committed piece of media.
    ProgressUpdate { input: ProgressUpdateInput, user_id: i32 },
    /// Post a review of a committed piece of media.
    PostReview { user_id: i32, input: PostReviewInput },
    /// Put a committed piece of media into a collection.
    AddMediaToCollection { user_id: i32, input: AddMediaToCollection },
    /// Ask for the summary of the user to be recalculated.
    DeployRecalculateSummaryJob { user_id: i32 },
    /// Close the report with this outcome.
    FinishImportJob { report: ImportReport, success: bool, details: ImportResultResponse },
    /// Nothing is left to do: the job has completed.
    Complete,
    /// Nothing is left to do: the job was given up.
    Abort { error: Option<String> },
}

#[allow(inconsistent_fields)]
pub enum ImportActionView {
    StartImportJob { user_id: i32, source: MediaImportSource },
    ImportMediaTracker(DeployMediaTrackerImportInputView),
    ImportGoodreads(DeployGoodreadsImportInputView),
    CreateOrUpdateCollection { user_id: i32, input: CreateOrUpdateCollectionInputView },
    CommitMedia { lot: MetadataLot, source: MetadataSource, identifier: Seq<char> },
    CommitMediaInternal(MediaDetailsView),
    ProgressUpdate { input: ProgressUpdateInputView, user_id: i32 },
    PostReview { user_id: i32, input: PostReviewInputView },
    AddMediaToCollection { user_id: i32, input: AddMediaToCollectionView },
    DeployRecalculateSummaryJob { user_id: i32 },
    FinishImportJob { report: ImportReportView, success: bool, details: ImportResultResponseView },
    Complete,
    Abort { error: Option<Seq<char>> },
}

impl View for ImportAction {
    type V = ImportActionView;

    open spec fn view(&self) -> ImportActionView {
        match self {
            ImportAction::StartImportJob { user_id, source } => ImportActionView::StartImportJob {
                user_id: *user_id,
                source: *source,
            },
            ImportAction::ImportMediaTracker(input) => ImportActionView::ImportMediaTracker(input@),
            ImportAction::ImportGoodreads(input) => ImportActionView::ImportGoodreads(input@),
            ImportAction::CreateOrUpdateCollection {
                user_id,
                input,
            } => ImportActionView::CreateOrUpdateCollection { user_id: *user_id, input: input@ },
            ImportAction::CommitMedia { lot, source, identifier } => ImportActionView::CommitMedia {
                lot: *lot,
                source: *source,
                identifier: identifier@,
            },
            ImportAction::CommitMediaInternal(details) => ImportActionView::CommitMediaInternal(
                details@,
            ),
            ImportAction::ProgressUpdate { input, user_id } => ImportActionView::ProgressUpdate {
                input: input@,
                user_id: *user_id,
            },
            ImportAction::PostReview { user_id, input } => ImportActionView::PostReview {
                user_id: *user_id,
                input: input@,
            },
            ImportAction::AddMediaToCollection {
                user_id,
                input,
            } => ImportActionView::AddMediaToCollection { user_id: *user_id, input: input@ },
            ImportAction::DeployRecalculateSummaryJob {
                user_id,
            } => ImportActionView::DeployRecalculateSummaryJob { user_id: *user_id },
            ImportAction::FinishImportJob {
                report,
                success,
                details,
            } => ImportActionView::FinishImportJob {
                report: report@,
                success: *success,
                details: details@,
            },
            ImportAction::Complete => ImportActionView::Complete,
            ImportAction::Abort { error } => ImportActionView::Abort { error: error.deep_view() },
        }
    }
}

/// The action that commits `item`: resolution by identifier where the
/// details are still to be fetched, the details themselves where the item
/// brings them.
pub open spec fn commit_action(item: ImportItemView) -> ImportActionView {
    match item.identifier {
        ImportItemIdentifierView::NeedsDetails(identifier) => ImportActionView::CommitMedia {
            lot: item.lot,
            source: item.source,
            identifier,
        },
        ImportItemIdentifierView::AlreadyFilled(details) => ImportActionView::CommitMediaInternal(
            details,
        ),
    }
}

/// The action that fetches the history from the source of `input`.
pub open spec fn fetch_action(input: DeployImportInputView) -> ImportActionView
    recommends
        input.has_source_payload(),
{
    match input.source {
        MediaImportSource::MediaTracker => ImportActionView::ImportMediaTracker(
            input.media_tracker.unwrap(),
        ),
        MediaImportSource::Goodreads => ImportActionView::ImportGoodreads(input.goodreads.unwrap()),
    }
}

/// The ledger entry for a history that could not be fetched.
pub open spec fn failed_fetch(error: Option<Seq<char>>) -> ImportFailedItemView {
    ImportFailedItemView {
        lot: None,
        step: ImportFailStep::ItemDetailsFromSource,
        identifier: Seq::empty(),
        error,
    }
}

/// The ledger entry for a collection of the history that could not be set
/// up.
pub open spec fn failed_collection(name: Seq<char>, error: Option<Seq<char>>) -> ImportFailedItemView {
    ImportFailedItemView {
        lot: None,
        step: ImportFailStep::MediaDetailsFromProvider,
        identifier: name,
        error,
    }
}

/// The state of a job, as a value of mathematics.
pub struct ImportRunView {
    pub user_id: i32,
    pub input: DeployImportInputView,
    pub stage: ImportStage,
    pub report: Option<ImportReportView>,
    pub collections: Seq<CreateOrUpdateCollectionInputView>,
    pub media: Seq<ImportItemView>,
    pub failed_items: Seq<ImportFailedItemView>,
    /// How many items are dealt with: the place of the item at hand.
    pub item: int,
    /// The place, in the list at hand, of the entry at hand.
    pub cursor: int,
    /// The id of the committed media of the item at hand.
    pub metadata_id: i32,
    /// The reason the job is given up for.
    pub error: Option<Seq<char>>,
}

impl ImportRunView {
    /// Whether the job is dealing with one of its items.
    pub open spec fn at_item(self) -> bool {
        ||| self.stage == ImportStage::Committing
        ||| self.stage == ImportStage::ReplayingSeen
        ||| self.stage == ImportStage::PostingReview
        ||| self.stage == ImportStage::UpsertingItemCollection
        ||| self.stage == ImportStage::AddingToCollection
    }

    /// Whether the job has not come to its items yet.
    pub open spec fn before_items(self) -> bool {
        ||| self.stage == ImportStage::AwaitingReport
        ||| self.stage == ImportStage::Fetching
        ||| self.stage == ImportStage::UpsertingCollection
    }

    /// Whether the job holds the report it is to close.
    pub open spec fn needs_report(self) -> bool {
        ||| self.stage == ImportStage::Fetching
        ||| self.stage == ImportStage::UpsertingCollection
        ||| self.at_item()
        ||| self.stage == ImportStage::Recalculating
    }

    /// What holds of every state a job can be in.
    pub open spec fn valid(self) -> bool {
        &&& self.input.has_source_payload()
        &&& 0 <= self.failed_items.len() <= self.item <= self.media.len() <= usize::MAX
        &&& 0 <= self.cursor
        &&& self.needs_report() ==> self.report.is_some()
        &&& self.before_items() ==> self.item == 0
        &&& self.stage == ImportStage::UpsertingCollection ==> self.cursor < self.collections.len()
        &&& self.at_item() ==> self.item < self.media.len()
        &&& self.stage == ImportStage::ReplayingSeen ==> self.cursor
            < self.media[self.item].seen_history.len()
        &&& self.stage == ImportStage::PostingReview ==> self.cursor
            < self.media[self.item].reviews.len()
        &&& (self.stage == ImportStage::UpsertingItemCollection || self.stage
            == ImportStage::AddingToCollection) ==> self.cursor
            < self.media[self.item].collections.len()
        &&& self.stage == ImportStage::Recalculating ==> self.item == self.media.len()
    }

    /// The item at hand.
    pub open spec fn current(self) -> ImportItemView {
        self.media[self.item]
    }

    /// How many items were imported so far: those dealt with, less those in
    /// the ledger.
    pub open spec fn imported(self) -> usize {
        (self.item - self.failed_items.len()) as usize
    }

    /// The job as it starts, and its first action: to create the report.
    pub open spec fn begin(user_id: i32, input: DeployImportInputView) -> (
        ImportRunView,
        ImportActionView,
    ) {
        (
            ImportRunView {
                user_id,
                input,
                stage: ImportStage::AwaitingReport,
                report: None,
                collections: Seq::empty(),
                media: Seq::empty(),
                failed_items: Seq::empty(),
                item: 0,
                cursor: 0,
                metadata_id: 0,
                error: None,
            },
            ImportActionView::StartImportJob { user_id, source: input.source },
        )
    }

    /// Turns to the item at place `item`, or to the recalculation of the
    /// summary where no item is left.
    pub open spec fn commit_from(self, item: int) -> (ImportRunView, ImportActionView) {
        if item < self.media.len() {
            (
                ImportRunView { stage: ImportStage::Committing, item, cursor: 0, ..self },
                commit_action(self.media[item]),
            )
        } else {
            (
                ImportRunView { stage: ImportStage::Recalculating, item, cursor: 0, ..self },
                ImportActionView::DeployRecalculateSummaryJob { user_id: self.user_id },
            )
        }
    }

    /// Turns to the collection at place `cursor` of the item at hand, or to
    /// the next item where none is left.
    pub open spec fn item_collections_from(self, cursor: int) -> (ImportRunView, ImportActionView) {
        if cursor < self.current().collections.len() {
            (
                ImportRunView { stage: ImportStage::UpsertingItemCollection, cursor, ..self },
                ImportActionView::CreateOrUpdateCollection {
                    user_id: self.user_id,
                    input: CreateOrUpdateCollectionInput::spec_named(
                        self.current().collections[cursor],
                    ),
                },
            )
        } else {
            self.commit_from(self.item + 1)
        }
    }

    /// Turns to the review at place `cursor` of the item at hand, or to its
    /// collections where none is left.
    pub open spec fn reviews_from(self, cursor: int) -> (ImportRunView, ImportActionView) {
        if cursor < self.current().reviews.len() {
            (
                ImportRunView { stage: ImportStage::PostingReview, cursor, ..self },
                ImportActionView::PostReview {
                    user_id: self.user_id,
                    input: self.current().reviews[cursor].post_review(self.metadata_id),
                },
            )
        } else {
            self.item_collections_from(0)
        }
    }

    /// Turns to the entry at place `cursor` of what was seen of the item at
    /// hand, or to its reviews where none is left.
    pub open spec fn seen_from(self, cursor: int) -> (ImportRunView, ImportActionView) {
        if cursor < self.current().seen_history.len() {
            (
                ImportRunView { stage: ImportStage::ReplayingSeen, cursor, ..self },
                ImportActionView::ProgressUpdate {
                    input: self.current().seen_history[cursor].progress_update(self.metadata_id),
                    user_id: self.user_id,
                },
            )
        } else {
            self.reviews_from(0)
        }
    }

    /// Turns to the collection at place `cursor` of the history, or to the
    /// first item where none is left.
    pub open spec fn collections_from(self, cursor: int) -> (ImportRunView, ImportActionView) {
        if cursor < self.collections.len() {
            (
                ImportRunView { stage: ImportStage::UpsertingCollection, cursor, ..self },
                ImportActionView::CreateOrUpdateCollection {
                    user_id: self.user_id,
                    input: self.collections[cursor],
                },
            )
        } else {
            self.commit_from(0)
        }
    }

    /// The outcome that the report of a completed job is closed with: every
    /// item that is not in the ledger counts as imported.
    pub open spec fn summary(self) -> ImportResultResponseView {
        ImportResultResponseView {
            source: self.report.unwrap().source,
            import: ImportDetails { total: (self.media.len() - self.failed_items.len()) as usize },
            failed_items: self.failed_items,
        }
    }

    /// The outcome that the report of a job is closed with which is given
    /// up over `entry`: the ledger with `entry` at its end, and as imported
    /// the items that were through before.
    pub open spec fn failure(self, entry: ImportFailedItemView) -> ImportResultResponseView {
        ImportResultResponseView {
            source: self.report.unwrap().source,
            import: ImportDetails { total: self.imported() },
            failed_items: self.failed_items.push(entry),
        }
    }

    /// Gives the job up over `entry`: the report is to be closed as failed.
    pub open spec fn fail_job(self, entry: ImportFailedItemView) -> (ImportRunView, ImportActionView) {
        (
            ImportRunView { stage: ImportStage::Failing, error: entry.error, ..self },
            ImportActionView::FinishImportJob {
                report: self.report.unwrap(),
                success: false,
                details: self.failure(entry),
            },
        )
    }

    /// Gives the job up with nothing left to close.
    pub open spec fn give_up(self, error: Option<Seq<char>>) -> (ImportRunView, ImportActionView) {
        (
            ImportRunView { stage: ImportStage::Aborted, error, ..self },
            ImportActionView::Abort { error },
        )
    }

    /// Takes in the history that the source handed over. Its ledger starts
    /// empty.
    pub open spec fn with_history(self, result: ImportResultView) -> ImportRunView {
        ImportRunView {
            collections: result.collections,
            media: result.media,
            failed_items: Seq::empty(),
            item: 0,
            cursor: 0,
            ..self
        }
    }

    /// One step of the job: the state after `event`, and the next action.
    pub open spec fn step(self, event: ImportEventView) -> (ImportRunView, ImportActionView) {
        match self.stage {
            ImportStage::AwaitingReport => match event {
                ImportEventView::JobStarted(report) => (
                    ImportRunView { stage: ImportStage::Fetching, report: Some(report), ..self },
                    fetch_action(self.input),
                ),
                _ => self.give_up(event.reason()),
            },
            ImportStage::Fetching => match event {
                ImportEventView::Imported(result) => self.with_history(result).collections_from(0),
                _ => self.fail_job(failed_fetch(event.reason())),
            },
            ImportStage::UpsertingCollection => match event {
                ImportEventView::Done => self.collections_from(self.cursor + 1),
                _ => self.fail_job(
                    failed_collection(self.collections[self.cursor].name, event.reason()),
                ),
            },
            ImportStage::Committing => match event {
                ImportEventView::Committed(metadata_id) => ImportRunView {
                    metadata_id,
                    ..self
                }.seen_from(0),
                _ => ImportRunView {
                    failed_items: self.failed_items.push(
                        self.current().failed_commit(event.reason()),
                    ),
                    ..self
                }.commit_from(self.item + 1),
            },
            ImportStage::ReplayingSeen => match event {
                ImportEventView::Done => self.seen_from(self.cursor + 1),
                _ => self.fail_job(self.current().failed_commit(event.reason())),
            },
            ImportStage::PostingReview => match event {
                ImportEventView::Done => self.reviews_from(self.cursor + 1),
                _ => self.fail_job(self.current().failed_commit(event.reason())),
            },
            ImportStage::UpsertingItemCollection => match event {
                ImportEventView::Done => (
                    ImportRunView { stage: ImportStage::AddingToCollection, ..self },
                    ImportActionView::AddMediaToCollection {
                        user_id: self.user_id,
                        input: AddMediaToCollectionView {
                            collection_name: self.current().collections[self.cursor],
                            media_id: self.metadata_id,
                        },
                    },
                ),
                _ => self.fail_job(self.current().failed_commit(event.reason())),
            },
            ImportStage::AddingToCollection => self.item_collections_from(self.cursor + 1),
            ImportStage::Recalculating => (
                ImportRunView { stage: ImportStage::Finishing, ..self },
                ImportActionView::FinishImportJob {
                    report: self.report.unwrap(),
                    success: true,
                    details: self.summary(),
                },
            ),
            ImportStage::Finishing => match event {
                ImportEventView::Done => (
                    ImportRunView { stage: ImportStage::Finished, ..self },
                    ImportActionView::Complete,
                ),
                _ => self.give_up(event.reason()),
            },
            ImportStage::Failing => (
                ImportRunView { stage: ImportStage::Aborted, ..self },
                ImportActionView::Abort { error: self.error },
            ),
            ImportStage::Finished => (self, ImportActionView::Complete),
            ImportStage::Aborted => (self, ImportActionView::Abort { error: self.error }),
        }
    }
}


impl ImportEventView {
    /// Whether the event fits in memory, as every event does that a caller
    /// hands in.
    pub open spec fn fits(self) -> bool {
        self matches ImportEventView::Imported(result) ==> result.media.len() <= usize::MAX
    }
}

/// A job starts in a valid state.
pub proof fn lemma_begin_valid(user_id: i32, input: DeployImportInputView)
    requires
        input.has_source_payload(),
    ensures
        ImportRunView::begin(user_id, input).0.valid(),
{
}

/// A step leads from a valid state to a valid state.
pub proof fn lemma_step_valid(state: ImportRunView, event: ImportEventView)
    requires
        state.valid(),
        event.fits(),
    ensures
        state.step(event).0.valid(),
{
}

/// The state of one import job. It is made by starting a job and changes
/// only by `step`.
#[derive(Debug)]
pub struct ImportRun {
    user_id: i32,
    input: DeployImportInput,
    stage: ImportStage,
    report: Option<ImportReport>,
    collections: Vec<CreateOrUpdateCollectionInput>,
    media: Vec<ImportItem>,
    failed_items: Vec<ImportFailedItem>,
    item: usize,
    cursor: usize,
    metadata_id: i32,
    error: Option<String>,
}

impl View for ImportRun {
    type V = ImportRunView;

    closed spec fn view(&self) -> ImportRunView {
        ImportRunView {
            user_id: self.user_id,
            input: self.input@,
            stage: self.stage,
            report: self.report.deep_view(),
            collections: self.collections.deep_view(),
            media: self.media.deep_view(),
            failed_items: self.failed_items.deep_view(),
            item: self.item as int,
            cursor: self.cursor as int,
            metadata_id: self.metadata_id,
            error: self.error.deep_view(),
        }
    }
}

/// The action that commits `item`.
fn commit_request(item: &ImportItem) -> (action: ImportAction)
    ensures
        action@ == commit_action(item@),
{
    match &item.identifier {
        ImportItemIdentifier::NeedsDetails(identifier) => ImportAction::CommitMedia {
            lot: item.lot,
            source: item.source,
            identifier: identifier.clone(),
        },
        ImportItemIdentifier::AlreadyFilled(details) => ImportAction::CommitMediaInternal(
            (**details).clone(),
        ),
    }
}

/// The action that fetches the history from the source of `input`.
fn fetch_request(input: &DeployImportInput) -> (action: ImportAction)
    requires
        input@.has_source_payload(),
    ensures
        action@ == fetch_action(input@),
{
    match input.source {
        MediaImportSource::MediaTracker => ImportAction::ImportMediaTracker(
            input.media_tracker.as_ref().unwrap().clone(),
        ),
        MediaImportSource::Goodreads => ImportAction::ImportGoodreads(
            input.goodreads.as_ref().unwrap().clone(),
        ),
    }
}

impl ImportRun {
    #[verifier::type_invariant]
    spec fn well_formed(self) -> bool {
        self@.valid()
    }

    /// Starts the job for the request `input` of `user_id`.
    pub(crate) fn begin(user_id: i32, input: DeployImportInput) -> (start: (ImportRun, ImportAction))
        requires
            input@.has_source_payload(),
        ensures
            (start.0@, start.1@) == ImportRunView::begin(user_id, input@),
            start.0@.valid(),
    {
        let action = ImportAction::StartImportJob { user_id, source: input.source };
        let run = ImportRun {
            user_id,
            input,
            stage: ImportStage::AwaitingReport,
            report: None,
            collections: Vec::new(),
            media: Vec::new(),
            failed_items: Vec::new(),
            item: 0,
            cursor: 0,
            metadata_id: 0,
            error: None,
        };
        assert(run@.collections =~= Seq::empty());
        assert(run@.media =~= Seq::empty());
        assert(run@.failed_items =~= Seq::empty());
        (run, action)
    }

    /// Where the job stands.
    pub fn stage(&self) -> (stage: ImportStage)
        ensures
            stage == self@.stage,
    {
        self.stage
    }

    /// Whether nothing is left to do.
    pub fn is_over(&self) -> (over: bool)
        ensures
            over == (self@.stage == ImportStage::Finished || self@.stage == ImportStage::Aborted),
    {
        match self.stage {
            ImportStage::Finished => true,
            ImportStage::Aborted => true,
            _ => false,
        }
    }

    /// How many entries the ledger of failures holds.
    pub fn failed_count(&self) -> (count: usize)
        ensures
            count == self@.failed_items.len(),
    {
        self.failed_items.len()
    }

    fn commit_from(self, item: usize) -> (next: (ImportRun, ImportAction))
        requires
            self@.report.is_some(),
            self@.failed_items.len() <= item <= self@.media.len(),
        ensures
            (next.0@, next.1@) == self@.commit_from(item as int),
    {
        proof {
            use_type_invariant(&self);
        }
        if item < self.media.len() {
            let action = commit_request(&self.media[item]);
            (ImportRun { stage: ImportStage::Committing, item, cursor: 0, ..self }, action)
        } else {
            let action = ImportAction::DeployRecalculateSummaryJob { user_id: self.user_id };
            (ImportRun { stage: ImportStage::Recalculating, item, cursor: 0, ..self }, action)
        }
    }

    fn item_collections_from(self, cursor: usize) -> (next: (ImportRun, ImportAction))
        requires
            self@.at_item(),
        ensures
            (next.0@, next.1@) == self@.item_collections_from(cursor as int),
    {
        proof {
            use_type_invariant(&self);
        }
        if cursor < self.media[self.item].collections.len() {
            let action = ImportAction::CreateOrUpdateCollection {
                user_id: self.user_id,
                input: CreateOrUpdateCollectionInput::named(
                    &self.media[self.item].collections[cursor],
                ),
            };
            (ImportRun { stage: ImportStage::UpsertingItemCollection, cursor, ..self }, action)
        } else {
            let item = self.item + 1;
            self.commit_from(item)
        }
    }

    fn reviews_from(self, cursor: usize) -> (next: (ImportRun, ImportAction))
        requires
            self@.at_item(),
        ensures
            (next.0@, next.1@) == self@.reviews_from(cursor as int),
    {
        proof {
            use_type_invariant(&self);
        }
        if cursor < self.media[self.item].reviews.len() {
            let action = ImportAction::PostReview {
                user_id: self.user_id,
                input: self.media[self.item].reviews[cursor].post_review(self.metadata_id),
            };
            (ImportRun { stage: ImportStage::PostingReview, cursor, ..self }, action)
        } else {
            self.item_collections_from(0)
        }
    }

    fn seen_from(self, cursor: usize) -> (next: (ImportRun, ImportAction))
        requires
            self@.at_item(),
        ensures
            (next.0@, next.1@) == self@.seen_from(cursor as int),
    {
        proof {
            use_type_invariant(&self);
        }
        if cursor < self.media[self.item].seen_history.len() {
            let action = ImportAction::ProgressUpdate {
                input: self.media[self.item].seen_history[cursor].progress_update(self.metadata_id),
                user_id: self.user_id,
            };
            (ImportRun { stage: ImportStage::ReplayingSeen, cursor, ..self }, action)
        } else {
            self.reviews_from(0)
        }
    }

    fn collections_from(self, cursor: usize) -> (next: (ImportRun, ImportAction))
        requires
            self@.report.is_some(),
            self@.item == 0,
        ensures
            (next.0@, next.1@) == self@.collections_from(cursor as int),
    {
        proof {
            use_type_invariant(&self);
        }
        if cursor < self.collections.len() {
            let action = ImportAction::CreateOrUpdateCollection {
                user_id: self.user_id,
                input: self.collections[cursor].clone(),
            };
            (ImportRun { stage: ImportStage::UpsertingCollection, cursor, ..self }, action)
        } else {
            self.commit_from(0)
        }
    }

    fn fail_job(self, entry: ImportFailedItem) -> (next: (ImportRun, ImportAction))
        requires
            self@.report.is_some(),
        ensures
            (next.0@, next.1@) == self@.fail_job(entry@),
    {
        proof {
            use_type_invariant(&self);
        }
        let report = self.report.as_ref().unwrap().clone();
        let error = entry.error.clone();
        let mut failed_items = self.failed_items.clone();
        assert(failed_items.deep_view() =~= self@.failed_items);
        let ghost entry_view = entry@;
        failed_items.push(entry);
        assert(failed_items.deep_view() =~= self@.failed_items.push(entry_view));
        let details = ImportResultResponse {
            source: report.source,
            import: ImportDetails { total: self.item - self.failed_items.len() },
            failed_items,
        };
        let action = ImportAction::FinishImportJob { report, success: false, details };
        (ImportRun { stage: ImportStage::Failing, error, ..self }, action)
    }

    fn give_up(self, error: Option<String>) -> (next: (ImportRun, ImportAction))
        ensures
            (next.0@, next.1@) == self@.give_up(error.deep_view()),
    {
        proof {
            use_type_invariant(&self);
        }
        let action = ImportAction::Abort { error: error.clone() };
        (ImportRun { stage: ImportStage::Aborted, error, ..self }, action)
    }

    fn abort_action(&self) -> (action: ImportAction)
        ensures
            action@ == (ImportActionView::Abort { error: self@.error }),
    {
        ImportAction::Abort { error: self.error.clone() }
    }

    fn failed_current(&self, error: Option<String>) -> (entry: ImportFailedItem)
        requires
            self@.at_item(),
        ensures
            entry@ == self@.current().failed_commit(error.deep_view()),
    {
        proof {
            use_type_invariant(self);
        }
        self.media[self.item].failed_commit(error)
    }

    /// One step of the job: takes what happened to the last action and
    /// hands out the next one.
    pub fn step(self, event: ImportEvent) -> (next: (ImportRun, ImportAction))
        ensures
            self@.valid(),
            (next.0@, next.1@) == self@.step(event@),
            next.0@.valid(),
    {
        proof {
            use_type_invariant(&self);
        }
        let next = match self.stage {
            ImportStage::AwaitingReport => match event {
                ImportEvent::JobStarted(report) => {
                    let action = fetch_request(&self.input);
                    (
                        ImportRun { stage: ImportStage::Fetching, report: Some(report), ..self },
                        action,
                    )
                },
                other => {
                    let error = other.reason();
                    self.give_up(error)
                },
            },
            ImportStage::Fetching => match event {
                ImportEvent::Imported(result) => {
                    let failed_items: Vec<ImportFailedItem> = Vec::new();
                    assert(failed_items.deep_view() =~= Seq::empty());
                    assert(result.media.deep_view().len() == result.media.len());
                    let taken = ImportRun {
                        collections: result.collections,
                        media: result.media,
                        failed_items,
                        item: 0,
                        cursor: 0,
                        ..self
                    };
                    taken.collections_from(0)
                },
                other => {
                    let entry = ImportFailedItem {
                        lot: None,
                        step: ImportFailStep::ItemDetailsFromSource,
                        identifier: String::new(),
                        error: other.reason(),
                    };
                    self.fail_job(entry)
                },
            },
            ImportStage::UpsertingCollection => match event {
                ImportEvent::Done => {
                    assert(self@.collections.len() == self.collections.len());
                    let cursor = self.cursor + 1;
                    self.collections_from(cursor)
                },
                other => {
                    let entry = ImportFailedItem {
                        lot: None,
                        step: ImportFailStep::MediaDetailsFromProvider,
                        identifier: self.collections[self.cursor].name.clone(),
                        error: other.reason(),
                    };
                    self.fail_job(entry)
                },
            },
            ImportStage::Committing => match event {
                ImportEvent::Committed(metadata_id) => {
                    let committed = ImportRun { metadata_id, ..self };
                    committed.seen_from(0)
                },
                other => {
                    let entry = self.failed_current(other.reason());
                    let ghost before = self@;
                    let ghost entry_view = entry@;
                    let item = self.item + 1;
                    let mut failed_items = self.failed_items;
                    failed_items.push(entry);
                    assert(failed_items.deep_view() =~= before.failed_items.push(entry_view));
                    if item < self.media.len() {
                        let action = commit_request(&self.media[item]);
                        (
                            ImportRun {
                                failed_items,
                                stage: ImportStage::Committing,
                                item,
                                cursor: 0,
                                ..self
                            },
                            action,
                        )
                    } else {
                        let action = ImportAction::DeployRecalculateSummaryJob {
                            user_id: self.user_id,
                        };
                        (
                            ImportRun {
                                failed_items,
                                stage: ImportStage::Recalculating,
                                item,
                                cursor: 0,
                                ..self
                            },
                            action,
                        )
                    }
                },
            },
            ImportStage::ReplayingSeen => match event {
                ImportEvent::Done => {
                    assert(self@.current().seen_history.len()
                        == self.media[self.item as int].seen_history.len());
                    let cursor = self.cursor + 1;
                    self.seen_from(cursor)
                },
                other => {
                    let entry = self.failed_current(other.reason());
                    self.fail_job(entry)
                },
            },
            ImportStage::PostingReview => match event {
                ImportEvent::Done => {
                    assert(self@.current().reviews.len()
                        == self.media[self.item as int].reviews.len());
                    let cursor = self.cursor + 1;
                    self.reviews_from(cursor)
                },
                other => {
                    let entry = self.failed_current(other.reason());
                    self.fail_job(entry)
                },
            },
            ImportStage::UpsertingItemCollection => match event {
                ImportEvent::Done => {
                    let action = ImportAction::AddMediaToCollection {
                        user_id: self.user_id,
                        input: AddMediaToCollection {
                            collection_name: self.media[self.item].collections[self.cursor].clone(),
                            media_id: self.metadata_id,
                        },
                    };
                    (ImportRun { stage: ImportStage::AddingToCollection, ..self }, action)
                },
                other => {
                    let entry = self.failed_current(other.reason());
                    self.fail_job(entry)
                },
            },
            ImportStage::AddingToCollection => {
                assert(self@.current().collections.len()
                    == self.media[self.item as int].collections.len());
                let cursor = self.cursor + 1;
                self.item_collections_from(cursor)
            },
            ImportStage::Recalculating => {
                let report = self.report.as_ref().unwrap().clone();
                let failed_items = self.failed_items.clone();
                assert(failed_items.deep_view() =~= self@.failed_items);
                let details = ImportResultResponse {
                    source: report.source,
                    import: ImportDetails { total: self.media.len() - self.failed_items.len() },
                    failed_items,
                };
                let action = ImportAction::FinishImportJob { report, success: true, details };
                (ImportRun { stage: ImportStage::Finishing, ..self }, action)
            },
            ImportStage::Finishing => match event {
                ImportEvent::Done => (
                    ImportRun { stage: ImportStage::Finished, ..self },
                    ImportAction::Complete,
                ),
                other => {
                    let error = other.reason();
                    self.give_up(error)
                },
            },
            ImportStage::Failing => {
                let action = self.abort_action();
                (ImportRun { stage: ImportStage::Aborted, ..self }, action)
            },
            ImportStage::Finished => (self, ImportAction::Complete),
            ImportStage::Aborted => {
                let action = self.abort_action();
                (self, action)
            },
        };
        proof {
            use_type_invariant(&next.0);
        }
        next
    }
}

} // verus!
