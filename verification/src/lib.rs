//! Verified core of a media-history import service.
//!
//! The crate holds the decisions of the import pipeline as plain functions
//! over plain values: intake of a request, the step function of one import
//! job, the lifecycle of its report, and the sweep that invalidates reports
//! of jobs that died. Whatever talks to a queue, a database or a provider
//! lives with the caller, which performs the actions this crate hands out
//! and reports back what happened.

pub mod time;
pub mod media;
pub mod request;
pub mod item;
pub mod report;
pub mod pipeline;
pub mod service;
pub mod laws;

pub use crate::item::{
    ImportDetails, ImportFailStep, ImportFailedItem, ImportItem, ImportItemIdentifier,
    ImportItemRating, ImportItemReview, ImportItemSeen, ImportResult, ImportResultResponse,
};
pub use crate::media::{
    AddMediaToCollection, CreateOrUpdateCollectionInput, MediaDetails, MediaImportSource,
    MetadataLot, MetadataSource, PostReviewInput, ProgressUpdateInput,
};
pub use crate::pipeline::{ImportAction, ImportEvent, ImportRun, ImportStage};
pub use crate::report::ImportReport;
pub use crate::request::{
    DeployGoodreadsImportInput, DeployImportInput, DeployMediaTrackerImportInput, ImportMedia,
    ValidationError,
};
pub use crate::service::ImporterService;
pub use crate::time::{CalendarDate, Timestamp};
