//! The canonical form of an imported history: items with what was seen,
//! what was reviewed and where each belongs, the outcome of fetching them,
//! and the ledger of what could not be imported.

use crate::media::{
    CreateOrUpdateCollectionInput, CreateOrUpdateCollectionInputView, MediaDetails,
    MediaDetailsView, MediaImportSource, MetadataLot, MetadataSource, PostReviewInput,
    PostReviewInputView, ProgressUpdateInput, ProgressUpdateInputView,
};
use crate::time::{CalendarDate, Timestamp};
use vstd::prelude::*;

verus! {

/// The written part of a review.
#[derive(Debug, PartialEq)]
pub struct ImportItemReview {
    pub date: Option<Timestamp>,
    pub spoiler: bool,
    pub text: String,
}

pub struct ImportItemReviewView {
    pub date: Option<Timestamp>,
    pub spoiler: bool,
    pub text: Seq<char>,
}

impl View for ImportItemReview {
    type V = ImportItemReviewView;

    open spec fn view(&self) -> ImportItemReviewView {
        ImportItemReviewView { date: self.date, spoiler: self.spoiler, text: self.text@ }
    }
}

impl DeepView for ImportItemReview {
    type V = ImportItemReviewView;

    open spec fn deep_view(&self) -> ImportItemReviewView {
        self@
    }
}

impl Clone for ImportItemReview {
    fn clone(&self) -> (copy: Self)
        ensures
            copy@ == self@,
    {
        ImportItemReview { date: self.date, spoiler: self.spoiler, text: self.text.clone() }
    }
}

/// A rating of an item, a review of it, or both.
#[derive(Debug, PartialEq)]
pub struct ImportItemRating {
    pub id: Option<String>,
    pub review: Option<ImportItemReview>,
    pub rating: Option<rust_decimal::Decimal>,
}

pub struct ImportItemRatingView {
    pub id: Option<Seq<char>>,
    pub review: Option<ImportItemReviewView>,
    pub rating: Option<rust_decimal::Decimal>,
}

impl View for ImportItemRating {
    type V = ImportItemRatingView;

    open spec fn view(&self) -> ImportItemRatingView {
        ImportItemRatingView {
            id: self.id.deep_view(),
            review: self.review.deep_view(),
            rating: self.rating,
        }
    }
}

impl DeepView for ImportItemRating {
    type V = ImportItemRatingView;

    open spec fn deep_view(&self) -> ImportItemRatingView {
        self@
    }
}

impl Clone for ImportItemRating {
    fn clone(&self) -> (copy: Self)
        ensures
            copy@ == self@,
    {
        let review = match &self.review {
            Some(review) => Some(review.clone()),
            None => None,
        };
        ImportItemRating { id: self.id.clone(), review, rating: self.rating }
    }
}

impl ImportItemRatingView {
    /// The review as it is posted on the committed media `metadata_id`:
    /// rating, text, spoiler flag and time are carried over, nothing else is
    /// set.
    pub open spec fn post_review(self, metadata_id: i32) -> PostReviewInputView {
        PostReviewInputView {
            identifier: self.id,
            rating: self.rating,
            text: match self.review {
                Some(review) => Some(review.text),
                None => None,
            },
            spoiler: match self.review {
                Some(review) => Some(review.spoiler),
                None => None,
            },
            date: match self.review {
                Some(review) => review.date,
                None => None,
            },
            metadata_id,
            review_id: None,
            season_number: None,
            episode_number: None,
        }
    }
}

impl ImportItemRating {
    /// The review as it is posted on the committed media `metadata_id`.
    pub fn post_review(&self, metadata_id: i32) -> (input: PostReviewInput)
        ensures
            input@ == self@.post_review(metadata_id),
    {
        let (text, spoiler, date) = match &self.review {
            Some(review) => (Some(review.text.clone()), Some(review.spoiler), review.date),
            None => (None, None, None),
        };
        PostReviewInput {
            identifier: self.id.clone(),
            rating: self.rating,
            text,
            spoiler,
            date,
            metadata_id,
            review_id: None,
            season_number: None,
            episode_number: None,
        }
    }
}

/// One time an item was watched, read or heard.
#[derive(Debug, PartialEq)]
pub struct ImportItemSeen {
    pub id: Option<String>,
    pub ended_on: Option<Timestamp>,
    pub show_season_number: Option<i32>,
    pub show_episode_number: Option<i32>,
    pub podcast_episode_number: Option<i32>,
}

pub struct ImportItemSeenView {
    pub id: Option<Seq<char>>,
    pub ended_on: Option<Timestamp>,
    pub show_season_number: Option<i32>,
    pub show_episode_number: Option<i32>,
    pub podcast_episode_number: Option<i32>,
}

impl View for ImportItemSeen {
    type V = ImportItemSeenView;

    open spec fn view(&self) -> ImportItemSeenView {
        ImportItemSeenView {
            id: self.id.deep_view(),
            ended_on: self.ended_on,
            show_season_number: self.show_season_number,
            show_episode_number: self.show_episode_number,
            podcast_episode_number: self.podcast_episode_number,
        }
    }
}

impl DeepView for ImportItemSeen {
    type V = ImportItemSeenView;

    open spec fn deep_view(&self) -> ImportItemSeenView {
        self@
    }
}

impl Clone for ImportItemSeen {
    fn clone(&self) -> (copy: Self)
        ensures
            copy@ == self@,
    {
        ImportItemSeen {
            id: self.id.clone(),
            ended_on: self.ended_on,
            show_season_number: self.show_season_number,
            show_episode_number: self.show_episode_number,
            podcast_episode_number: self.podcast_episode_number,
        }
    }
}

impl ImportItemSeenView {
    /// The entry as progress on the committed media `metadata_id`, finished
    /// on `date`: complete, with season and episode carried over.
    pub open spec fn progress_on(
        self,
        metadata_id: i32,
        date: Option<CalendarDate>,
    ) -> ProgressUpdateInputView {
        ProgressUpdateInputView {
            identifier: self.id,
            metadata_id,
            progress: Some(100i32),
            date,
            show_season_number: self.show_season_number,
            show_episode_number: self.show_episode_number,
            podcast_episode_number: self.podcast_episode_number,
        }
    }

    /// The UTC day on which the entry ended.
    pub open spec fn ended_on_day(self) -> Option<CalendarDate> {
        match self.ended_on {
            Some(moment) => moment.spec_date(),
            None => None,
        }
    }

    /// The entry as progress on the committed media `metadata_id`, finished
    /// on the day it ended.
    pub open spec fn progress_update(self, metadata_id: i32) -> ProgressUpdateInputView {
        self.progress_on(metadata_id, self.ended_on_day())
    }
}

impl ImportItemSeen {
    /// The entry as progress on the committed media `metadata_id`, finished
    /// on `date`.
    pub fn progress_on(&self, metadata_id: i32, date: Option<CalendarDate>) -> (input:
        ProgressUpdateInput)
        ensures
            input@ == self@.progress_on(metadata_id, date),
    {
        ProgressUpdateInput {
            identifier: self.id.clone(),
            metadata_id,
            progress: Some(100),
            date,
            show_season_number: self.show_season_number,
            show_episode_number: self.show_episode_number,
            podcast_episode_number: self.podcast_episode_number,
        }
    }

    /// The entry as progress on the committed media `metadata_id`, finished
    /// on the day it ended.
    pub fn progress_update(&self, metadata_id: i32) -> (input: ProgressUpdateInput)
        ensures
            input@ == self@.progress_update(metadata_id),
    {
        let date = match &self.ended_on {
            Some(moment) => moment.date(),
            None => None,
        };
        self.progress_on(metadata_id, date)
    }
}

/// How an item is turned into committed media.
#[derive(Debug, PartialEq)]
pub enum ImportItemIdentifier {
    /// The identifier in case the details still have to be fetched.
    NeedsDetails(String),
    /// The details are already filled and only need to be committed.
    AlreadyFilled(Box<MediaDetails>),
}

pub enum ImportItemIdentifierView {
    NeedsDetails(Seq<char>),
    AlreadyFilled(MediaDetailsView),
}

impl View for ImportItemIdentifier {
    type V = ImportItemIdentifierView;

    open spec fn view(&self) -> ImportItemIdentifierView {
        match self {
            ImportItemIdentifier::NeedsDetails(identifier) => ImportItemIdentifierView::NeedsDetails(
                identifier@,
            ),
            ImportItemIdentifier::AlreadyFilled(details) => ImportItemIdentifierView::AlreadyFilled(
                details@,
            ),
        }
    }
}

impl DeepView for ImportItemIdentifier {
    type V = ImportItemIdentifierView;

    open spec fn deep_view(&self) -> ImportItemIdentifierView {
        self@
    }
}

impl Clone for ImportItemIdentifier {
    fn clone(&self) -> (copy: Self)
        ensures
            copy@ == self@,
    {
        match self {
            ImportItemIdentifier::NeedsDetails(identifier) => ImportItemIdentifier::NeedsDetails(
                identifier.clone(),
            ),
            ImportItemIdentifier::AlreadyFilled(details) => ImportItemIdentifier::AlreadyFilled(
                Box::new((**details).clone()),
            ),
        }
    }
}

/// One entry of an imported history.
#[derive(Debug, PartialEq)]
pub struct ImportItem {
    pub source_id: String,
    pub lot: MetadataLot,
    pub source: MetadataSource,
    pub identifier: ImportItemIdentifier,
    pub seen_history: Vec<ImportItemSeen>,
    pub reviews: Vec<ImportItemRating>,
    pub collections: Vec<String>,
}

pub struct ImportItemView {
    pub source_id: Seq<char>,
    pub lot: MetadataLot,
    pub source: MetadataSource,
    pub identifier: ImportItemIdentifierView,
    pub seen_history: Seq<ImportItemSeenView>,
    pub reviews: Seq<ImportItemRatingView>,
    pub collections: Seq<Seq<char>>,
}

impl View for ImportItem {
    type V = ImportItemView;

    open spec fn view(&self) -> ImportItemView {
        ImportItemView {
            source_id: self.source_id@,
            lot: self.lot,
            source: self.source,
            identifier: self.identifier@,
            seen_history: self.seen_history.deep_view(),
            reviews: self.reviews.deep_view(),
            collections: self.collections.deep_view(),
        }
    }
}

impl DeepView for ImportItem {
    type V = ImportItemView;

    open spec fn deep_view(&self) -> ImportItemView {
        self@
    }
}

impl Clone for ImportItem {
    fn clone(&self) -> (copy: Self)
        ensures
            copy@ == self@,
    {
        let seen_history = self.seen_history.clone();
        assert(seen_history.deep_view() =~= self.seen_history.deep_view());
        let reviews = self.reviews.clone();
        assert(reviews.deep_view() =~= self.reviews.deep_view());
        let collections = self.collections.clone();
        assert(collections.deep_view() =~= self.collections.deep_view());
        ImportItem {
            source_id: self.source_id.clone(),
            lot: self.lot,
            source: self.source,
            identifier: self.identifier.clone(),
            seen_history,
            reviews,
            collections,
        }
    }
}

/// The various steps in which media importing can fail.
#[derive(Clone, Copy, Debug, PartialEq, Eq, Structural)]
pub enum ImportFailStep {
    /// Failed to get details from the source itself (for eg: MediaTracker,
    /// Goodreads etc.)
    ItemDetailsFromSource,
    /// Failed to get metadata from the provider (for eg: Openlibrary, IGDB
    /// etc.), or to commit to the media store.
    MediaDetailsFromProvider,
}

/// One thing that could not be imported. `lot` is absent where the failure
/// is that of the job as a whole and not of one item.
#[derive(Debug, PartialEq)]
pub struct ImportFailedItem {
    pub lot: Option<MetadataLot>,
    pub step: ImportFailStep,
    pub identifier: String,
    pub error: Option<String>,
}

pub struct ImportFailedItemView {
    pub lot: Option<MetadataLot>,
    pub step: ImportFailStep,
    pub identifier: Seq<char>,
    pub error: Option<Seq<char>>,
}

impl View for ImportFailedItem {
    type V = ImportFailedItemView;

    open spec fn view(&self) -> ImportFailedItemView {
        ImportFailedItemView {
            lot: self.lot,
            step: self.step,
            identifier: self.identifier@,
            error: self.error.deep_view(),
        }
    }
}

impl DeepView for ImportFailedItem {
    type V = ImportFailedItemView;

    open spec fn deep_view(&self) -> ImportFailedItemView {
        self@
    }
}

impl Clone for ImportFailedItem {
    fn clone(&self) -> (copy: Self)
        ensures
            copy@ == self@,
    {
        ImportFailedItem {
            lot: self.lot,
            step: self.step,
            identifier: self.identifier.clone(),
            error: self.error.clone(),
        }
    }
}

impl ImportItemView {
    /// The ledger entry for this item where committing it failed with
    /// `error`.
    pub open spec fn failed_commit(self, error: Option<Seq<char>>) -> ImportFailedItemView {
        ImportFailedItemView {
            lot: Some(self.lot),
            step: ImportFailStep::MediaDetailsFromProvider,
            identifier: self.source_id,
            error,
        }
    }
}

impl ImportItem {
    /// The ledger entry for this item where committing it failed with
    /// `error`.
    pub fn failed_commit(&self, error: Option<String>) -> (entry: ImportFailedItem)
        ensures
            entry@ == self@.failed_commit(error.deep_view()),
    {
        ImportFailedItem {
            lot: Some(self.lot),
            step: ImportFailStep::MediaDetailsFromProvider,
            identifier: self.source_id.clone(),
            error,
        }
    }
}

/// How much of a history was imported.
#[derive(Clone, Copy, Debug, PartialEq, Eq, Structural)]
pub struct ImportDetails {
    pub total: usize,
}

/// What a source hands over: the collections to set up, the items in the
/// order of the source, and the ledger of failures, which is empty when the
/// result is made and grows while the items are committed.
#[derive(Debug, PartialEq)]
pub struct ImportResult {
    pub collections: Vec<CreateOrUpdateCollectionInput>,
    pub media: Vec<ImportItem>,
    pub failed_items: Vec<ImportFailedItem>,
}

pub struct ImportResultView {
    pub collections: Seq<CreateOrUpdateCollectionInputView>,
    pub media: Seq<ImportItemView>,
    pub failed_items: Seq<ImportFailedItemView>,
}

impl View for ImportResult {
    type V = ImportResultView;

    open spec fn view(&self) -> ImportResultView {
        ImportResultView {
            collections: self.collections.deep_view(),
            media: self.media.deep_view(),
            failed_items: self.failed_items.deep_view(),
        }
    }
}

impl DeepView for ImportResult {
    type V = ImportResultView;

    open spec fn deep_view(&self) -> ImportResultView {
        self@
    }
}

impl Clone for ImportResult {
    fn clone(&self) -> (copy: Self)
        ensures
            copy@ == self@,
    {
        let collections = self.collections.clone();
        assert(collections.deep_view() =~= self.collections.deep_view());
        let media = self.media.clone();
        assert(media.deep_view() =~= self.media.deep_view());
        let failed_items = self.failed_items.clone();
        assert(failed_items.deep_view() =~= self.failed_items.deep_view());
        ImportResult { collections, media, failed_items }
    }
}

impl ImportResult {
    /// A freshly fetched history: nothing has failed yet.
    pub fn new(collections: Vec<CreateOrUpdateCollectionInput>, media: Vec<ImportItem>) -> (result:
        ImportResult)
        ensures
            result@ == (ImportResultView {
                collections: collections.deep_view(),
                media: media.deep_view(),
                failed_items: Seq::empty(),
            }),
    {
        let result = ImportResult { collections, media, failed_items: Vec::new() };
        assert(result.failed_items.deep_view() =~= Seq::empty());
        result
    }
}

/// The outcome of a job as its report holds it.
#[derive(Debug, PartialEq)]
pub struct ImportResultResponse {
    pub source: MediaImportSource,
    pub import: ImportDetails,
    pub failed_items: Vec<ImportFailedItem>,
}

pub struct ImportResultResponseView {
    pub source: MediaImportSource,
    pub import: ImportDetails,
    pub failed_items: Seq<ImportFailedItemView>,
}

impl View for ImportResultResponse {
    type V = ImportResultResponseView;

    open spec fn view(&self) -> ImportResultResponseView {
        ImportResultResponseView {
            source: self.source,
            import: self.import,
            failed_items: self.failed_items.deep_view(),
        }
    }
}

impl DeepView for ImportResultResponse {
    type V = ImportResultResponseView;

    open spec fn deep_view(&self) -> ImportResultResponseView {
        self@
    }
}

impl Clone for ImportResultResponse {
    fn clone(&self) -> (copy: Self)
        ensures
            copy@ == self@,
    {
        let failed_items = self.failed_items.clone();
        assert(failed_items.deep_view() =~= self.failed_items.deep_view());
        ImportResultResponse { source: self.source, import: self.import, failed_items }
    }
}

} // verus!
