//! What is committed to the media store: kinds of media, the providers of
//! their metadata, and the payloads of the store's operations.

use crate::time::{CalendarDate, Timestamp};
use vstd::prelude::*;

verus! {

/// `rust_decimal::Decimal`, the type of a rating. The library never looks
/// inside one: a rating is carried from an imported item to the review that
/// is posted for it.
#[verifier::external_type_specification]
#[verifier::external_body]
pub struct ExDecimal(rust_decimal::Decimal);

/// The services a history can be imported from.
#[derive(Clone, Copy, Debug, PartialEq, Eq, Structural)]
pub enum MediaImportSource {
    MediaTracker,
    Goodreads,
}

/// The kind of a piece of media.
#[derive(Clone, Copy, Debug, PartialEq, Eq, Structural)]
pub enum MetadataLot {
    AudioBook,
    Book,
    Movie,
    Podcast,
    Show,
    VideoGame,
}

/// The provider that metadata of a piece of media comes from.
#[derive(Clone, Copy, Debug, PartialEq, Eq, Structural)]
pub enum MetadataSource {
    Audible,
    Custom,
    Goodreads,
    Igdb,
    Itunes,
    Listennotes,
    Openlibrary,
    Tmdb,
}

/// Everything the media store needs to know of a piece of media to hold it
/// without asking a provider.
#[derive(Debug, PartialEq)]
pub struct MediaDetails {
    pub identifier: String,
    pub title: String,
    pub description: Option<String>,
    pub lot: MetadataLot,
    pub source: MetadataSource,
    pub creators: Vec<String>,
    pub genres: Vec<String>,
    pub images: Vec<String>,
    pub publish_year: Option<i32>,
}

pub struct MediaDetailsView {
    pub identifier: Seq<char>,
    pub title: Seq<char>,
    pub description: Option<Seq<char>>,
    pub lot: MetadataLot,
    pub source: MetadataSource,
    pub creators: Seq<Seq<char>>,
    pub genres: Seq<Seq<char>>,
    pub images: Seq<Seq<char>>,
    pub publish_year: Option<i32>,
}

impl View for MediaDetails {
    type V = MediaDetailsView;

    open spec fn view(&self) -> MediaDetailsView {
        MediaDetailsView {
            identifier: self.identifier@,
            title: self.title@,
            description: self.description.deep_view(),
            lot: self.lot,
            source: self.source,
            creators: self.creators.deep_view(),
            genres: self.genres.deep_view(),
            images: self.images.deep_view(),
            publish_year: self.publish_year,
        }
    }
}

impl DeepView for MediaDetails {
    type V = MediaDetailsView;

    open spec fn deep_view(&self) -> MediaDetailsView {
        self@
    }
}

impl Clone for MediaDetails {
    fn clone(&self) -> (copy: Self)
        ensures
            copy@ == self@,
    {
        let creators = self.creators.clone();
        assert(creators.deep_view() =~= self.creators.deep_view());
        let genres = self.genres.clone();
        assert(genres.deep_view() =~= self.genres.deep_view());
        let images = self.images.clone();
        assert(images.deep_view() =~= self.images.deep_view());
        MediaDetails {
            identifier: self.identifier.clone(),
            title: self.title.clone(),
            description: self.description.clone(),
            lot: self.lot,
            source: self.source,
            creators,
            genres,
            images,
            publish_year: self.publish_year,
        }
    }
}

/// A collection to create, or to update where one of that name exists.
#[derive(Debug, PartialEq)]
pub struct CreateOrUpdateCollectionInput {
    pub name: String,
    pub description: Option<String>,
    pub update_id: Option<i32>,
}

pub struct CreateOrUpdateCollectionInputView {
    pub name: Seq<char>,
    pub description: Option<Seq<char>>,
    pub update_id: Option<i32>,
}

impl View for CreateOrUpdateCollectionInput {
    type V = CreateOrUpdateCollectionInputView;

    open spec fn view(&self) -> CreateOrUpdateCollectionInputView {
        CreateOrUpdateCollectionInputView {
            name: self.name@,
            description: self.description.deep_view(),
            update_id: self.update_id,
        }
    }
}

impl DeepView for CreateOrUpdateCollectionInput {
    type V = CreateOrUpdateCollectionInputView;

    open spec fn deep_view(&self) -> CreateOrUpdateCollectionInputView {
        self@
    }
}

impl Clone for CreateOrUpdateCollectionInput {
    fn clone(&self) -> (copy: Self)
        ensures
            copy@ == self@,
    {
        CreateOrUpdateCollectionInput {
            name: self.name.clone(),
            description: self.description.clone(),
            update_id: self.update_id,
        }
    }
}

impl CreateOrUpdateCollectionInput {
    /// The collection `name` with nothing else said of it.
    pub open spec fn spec_named(name: Seq<char>) -> CreateOrUpdateCollectionInputView {
        CreateOrUpdateCollectionInputView { name, description: None, update_id: None }
    }

    /// The collection `name` with nothing else said of it.
    pub fn named(name: &String) -> (input: CreateOrUpdateCollectionInput)
        ensures
            input@ == Self::spec_named(name@),
    {
        CreateOrUpdateCollectionInput { name: name.clone(), description: None, update_id: None }
    }
}

/// One step of progress on a piece of media.
#[derive(Debug, PartialEq)]
pub struct ProgressUpdateInput {
    pub identifier: Option<String>,
    pub metadata_id: i32,
    pub progress: Option<i32>,
    pub date: Option<CalendarDate>,
    pub show_season_number: Option<i32>,
    pub show_episode_number: Option<i32>,
    pub podcast_episode_number: Option<i32>,
}

pub struct ProgressUpdateInputView {
    pub identifier: Option<Seq<char>>,
    pub metadata_id: i32,
    pub progress: Option<i32>,
    pub date: Option<CalendarDate>,
    pub show_season_number: Option<i32>,
    pub show_episode_number: Option<i32>,
    pub podcast_episode_number: Option<i32>,
}

impl View for ProgressUpdateInput {
    type V = ProgressUpdateInputView;

    open spec fn view(&self) -> ProgressUpdateInputView {
        ProgressUpdateInputView {
            identifier: self.identifier.deep_view(),
            metadata_id: self.metadata_id,
            progress: self.progress,
            date: self.date,
            show_season_number: self.show_season_number,
            show_episode_number: self.show_episode_number,
            podcast_episode_number: self.podcast_episode_number,
        }
    }
}

impl DeepView for ProgressUpdateInput {
    type V = ProgressUpdateInputView;

    open spec fn deep_view(&self) -> ProgressUpdateInputView {
        self@
    }
}

/// A review to post on a piece of media.
#[derive(Debug, PartialEq)]
pub struct PostReviewInput {
    pub identifier: Option<String>,
    pub rating: Option<rust_decimal::Decimal>,
    pub text: Option<String>,
    pub spoiler: Option<bool>,
    pub date: Option<Timestamp>,
    pub metadata_id: i32,
    pub review_id: Option<i32>,
    pub season_number: Option<i32>,
    pub episode_number: Option<i32>,
}

pub struct PostReviewInputView {
    pub identifier: Option<Seq<char>>,
    pub rating: Option<rust_decimal::Decimal>,
    pub text: Option<Seq<char>>,
    pub spoiler: Option<bool>,
    pub date: Option<Timestamp>,
    pub metadata_id: i32,
    pub review_id: Option<i32>,
    pub season_number: Option<i32>,
    pub episode_number: Option<i32>,
}

impl View for PostReviewInput {
    type V = PostReviewInputView;

    open spec fn view(&self) -> PostReviewInputView {
        PostReviewInputView {
            identifier: self.identifier.deep_view(),
            rating: self.rating,
            text: self.text.deep_view(),
            spoiler: self.spoiler,
            date: self.date,
            metadata_id: self.metadata_id,
            review_id: self.review_id,
            season_number: self.season_number,
            episode_number: self.episode_number,
        }
    }
}

impl DeepView for PostReviewInput {
    type V = PostReviewInputView;

    open spec fn deep_view(&self) -> PostReviewInputView {
        self@
    }
}

/// A piece of media to put into a collection.
#[derive(Debug, PartialEq)]
pub struct AddMediaToCollection {
    pub collection_name: String,
    pub media_id: i32,
}

pub struct AddMediaToCollectionView {
    pub collection_name: Seq<char>,
    pub media_id: i32,
}

impl View for AddMediaToCollection {
    type V = AddMediaToCollectionView;

    open spec fn view(&self) -> AddMediaToCollectionView {
        AddMediaToCollectionView { collection_name: self.collection_name@, media_id: self.media_id }
    }
}

impl DeepView for AddMediaToCollection {
    type V = AddMediaToCollectionView;

    open spec fn deep_view(&self) -> AddMediaToCollectionView {
        self@
    }
}

} // verus!
