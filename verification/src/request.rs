//! Intake of an import request: what a caller submits, when it is accepted,
//! and the job that is queued for it.

use crate::media::MediaImportSource;
use vstd::prelude::*;

verus! {

/// How far `text` reaches once every `mark` at its end is cut off.
pub open spec fn trimmed_len(text: Seq<char>, mark: char) -> nat
    decreases text.len(),
{
    if text.len() > 0 && text.last() == mark {
        trimmed_len(text.drop_last(), mark)
    } else {
        text.len()
    }
}

/// `text` without the run of `mark` at its end.
pub open spec fn trim_end(text: Seq<char>, mark: char) -> Seq<char> {
    text.take(trimmed_len(text, mark) as int)
}

/// `trim_end` keeps the longest start of `text` that does not end in `mark`:
/// what it keeps is a prefix, does not end in `mark`, and everything behind
/// it is `mark`.
pub proof fn lemma_trim_end(text: Seq<char>, mark: char)
    ensures
        trimmed_len(text, mark) <= text.len(),
        trim_end(text, mark).is_prefix_of(text),
        trim_end(text, mark).len() > 0 ==> trim_end(text, mark).last() != mark,
        forall|k: int| trimmed_len(text, mark) <= k < text.len() ==> text[k] == mark,
    decreases text.len(),
{
    if text.len() > 0 && text.last() == mark {
        let shorter = text.drop_last();
        lemma_trim_end(shorter, mark);
        assert(trim_end(text, mark) =~= trim_end(shorter, mark));
        assert forall|k: int| trimmed_len(text, mark) <= k < text.len() implies text[k] == mark by {
            if k < shorter.len() {
                assert(shorter[k] == text[k]);
            }
        }
    } else {
        assert(trim_end(text, mark) =~= text);
    }
}

/// Trimming what is already trimmed changes nothing.
pub proof fn lemma_trim_end_idempotent(text: Seq<char>, mark: char)
    ensures
        trim_end(trim_end(text, mark), mark) == trim_end(text, mark),
{
    lemma_trim_end(text, mark);
    let once = trim_end(text, mark);
    assert(trimmed_len(once, mark) == once.len());
    assert(trim_end(once, mark) =~= once);
}

/// `url` without the slashes at its end.
pub fn trim_trailing_slashes(url: &str) -> (trimmed: String)
    ensures
        trimmed@ == trim_end(url@, '/'),
{
    let mut keep: usize = url.unicode_len();
    assert(url@.take(keep as int) =~= url@);
    while keep > 0 && url.get_char(keep - 1) == '/'
        invariant
            keep <= url@.len(),
            trimmed_len(url@, '/') == trimmed_len(url@.take(keep as int), '/'),
        decreases keep,
    {
        assert(url@.take(keep as int).drop_last() =~= url@.take(keep - 1));
        keep -= 1;
    }
    assert(trimmed_len(url@, '/') == keep);
    url.substring_char(0, keep).to_owned()
}

/// Where a MediaTracker instance is reached and the token that opens it.
#[derive(Debug, PartialEq)]
pub struct DeployMediaTrackerImportInput {
    /// The base url where the resource is present at
    pub api_url: String,
    /// An application token generated by an admin
    pub api_key: String,
}

pub struct DeployMediaTrackerImportInputView {
    pub api_url: Seq<char>,
    pub api_key: Seq<char>,
}

impl View for DeployMediaTrackerImportInput {
    type V = DeployMediaTrackerImportInputView;

    open spec fn view(&self) -> DeployMediaTrackerImportInputView {
        DeployMediaTrackerImportInputView { api_url: self.api_url@, api_key: self.api_key@ }
    }
}

impl DeepView for DeployMediaTrackerImportInput {
    type V = DeployMediaTrackerImportInputView;

    open spec fn deep_view(&self) -> DeployMediaTrackerImportInputView {
        self@
    }
}

impl Clone for DeployMediaTrackerImportInput {
    fn clone(&self) -> (copy: Self)
        ensures
            copy@ == self@,
    {
        DeployMediaTrackerImportInput {
            api_url: self.api_url.clone(),
            api_key: self.api_key.clone(),
        }
    }
}

impl DeployMediaTrackerImportInputView {
    /// The same credentials with the base url free of trailing slashes.
    pub open spec fn normalized(self) -> DeployMediaTrackerImportInputView {
        DeployMediaTrackerImportInputView { api_url: trim_end(self.api_url, '/'), ..self }
    }
}

impl DeployMediaTrackerImportInput {
    /// The same credentials with the base url free of trailing slashes.
    pub fn normalized(self) -> (clean: DeployMediaTrackerImportInput)
        ensures
            clean@ == self@.normalized(),
    {
        let api_url = trim_trailing_slashes(self.api_url.as_str());
        DeployMediaTrackerImportInput { api_url, api_key: self.api_key }
    }
}

/// Where the feed of a Goodreads shelf is found.
#[derive(Debug, PartialEq)]
pub struct DeployGoodreadsImportInput {
    /// The RSS url that can be found from the user's profile
    pub rss_url: String,
}

pub struct DeployGoodreadsImportInputView {
    pub rss_url: Seq<char>,
}

impl View for DeployGoodreadsImportInput {
    type V = DeployGoodreadsImportInputView;

    open spec fn view(&self) -> DeployGoodreadsImportInputView {
        DeployGoodreadsImportInputView { rss_url: self.rss_url@ }
    }
}

impl DeepView for DeployGoodreadsImportInput {
    type V = DeployGoodreadsImportInputView;

    open spec fn deep_view(&self) -> DeployGoodreadsImportInputView {
        self@
    }
}

impl Clone for DeployGoodreadsImportInput {
    fn clone(&self) -> (copy: Self)
        ensures
            copy@ == self@,
    {
        DeployGoodreadsImportInput { rss_url: self.rss_url.clone() }
    }
}

/// A request to import: the source, and the credentials of that source.
#[derive(Debug, PartialEq)]
pub struct DeployImportInput {
    pub source: MediaImportSource,
    pub media_tracker: Option<DeployMediaTrackerImportInput>,
    pub goodreads: Option<DeployGoodreadsImportInput>,
}

pub struct DeployImportInputView {
    pub source: MediaImportSource,
    pub media_tracker: Option<DeployMediaTrackerImportInputView>,
    pub goodreads: Option<DeployGoodreadsImportInputView>,
}

impl View for DeployImportInput {
    type V = DeployImportInputView;

    open spec fn view(&self) -> DeployImportInputView {
        DeployImportInputView {
            source: self.source,
            media_tracker: self.media_tracker.deep_view(),
            goodreads: self.goodreads.deep_view(),
        }
    }
}

impl DeepView for DeployImportInput {
    type V = DeployImportInputView;

    open spec fn deep_view(&self) -> DeployImportInputView {
        self@
    }
}

impl Clone for DeployImportInput {
    fn clone(&self) -> (copy: Self)
        ensures
            copy@ == self@,
    {
        let media_tracker = match &self.media_tracker {
            Some(payload) => Some(payload.clone()),
            None => None,
        };
        let goodreads = match &self.goodreads {
            Some(payload) => Some(payload.clone()),
            None => None,
        };
        DeployImportInput { source: self.source, media_tracker, goodreads }
    }
}

/// Why a request was turned away at intake.
#[derive(Clone, Copy, Debug, PartialEq, Eq, Structural)]
pub enum ValidationError {
    /// The credentials of the declared source are absent.
    MissingPayload,
    /// Credentials of a source other than the declared one are present.
    UnexpectedPayload,
}

impl ValidationError {
    /// The error in words.
    pub fn message(&self) -> (text: String)
        ensures
            text@ == match self {
                ValidationError::MissingPayload => "the credentials of the declared source are missing"@,
                ValidationError::UnexpectedPayload => "credentials of another source were supplied"@,
            },
    {
        match self {
            ValidationError::MissingPayload => "the credentials of the declared source are missing".to_owned(),
            ValidationError::UnexpectedPayload => "credentials of another source were supplied".to_owned(),
        }
    }
}

impl DeployImportInputView {
    /// Whether the credentials of the declared source are present.
    pub open spec fn has_source_payload(self) -> bool {
        match self.source {
            MediaImportSource::MediaTracker => self.media_tracker.is_some(),
            MediaImportSource::Goodreads => self.goodreads.is_some(),
        }
    }

    /// Whether credentials of a source other than the declared one are
    /// present.
    pub open spec fn has_other_payload(self) -> bool {
        match self.source {
            MediaImportSource::MediaTracker => self.goodreads.is_some(),
            MediaImportSource::Goodreads => self.media_tracker.is_some(),
        }
    }

    /// What intake says of the request: accepted exactly when the
    /// credentials of the declared source, and no others, are present.
    pub open spec fn validated(self) -> Result<(), ValidationError> {
        if !self.has_source_payload() {
            Err(ValidationError::MissingPayload)
        } else if self.has_other_payload() {
            Err(ValidationError::UnexpectedPayload)
        } else {
            Ok(())
        }
    }

    /// The request as it is queued: the base url of a MediaTracker instance
    /// loses its trailing slashes, everything else stays.
    pub open spec fn normalized(self) -> DeployImportInputView {
        DeployImportInputView {
            media_tracker: match self.media_tracker {
                Some(payload) => Some(payload.normalized()),
                None => None,
            },
            ..self
        }
    }
}

impl DeployImportInput {
    /// Whether the credentials of the declared source are present.
    pub fn has_source_payload(&self) -> (present: bool)
        ensures
            present == self@.has_source_payload(),
    {
        match self.source {
            MediaImportSource::MediaTracker => self.media_tracker.is_some(),
            MediaImportSource::Goodreads => self.goodreads.is_some(),
        }
    }

    /// Checks that the credentials of the declared source, and no others,
    /// are present.
    pub fn validate(&self) -> (verdict: Result<(), ValidationError>)
        ensures
            verdict == self@.validated(),
    {
        let (wanted, other) = match self.source {
            MediaImportSource::MediaTracker => (
                self.media_tracker.is_some(),
                self.goodreads.is_some(),
            ),
            MediaImportSource::Goodreads => (self.goodreads.is_some(), self.media_tracker.is_some()),
        };
        if !wanted {
            Err(ValidationError::MissingPayload)
        } else if other {
            Err(ValidationError::UnexpectedPayload)
        } else {
            Ok(())
        }
    }

    /// The request as it is queued.
    pub fn normalized(self) -> (clean: DeployImportInput)
        ensures
            clean@ == self@.normalized(),
    {
        let media_tracker = match self.media_tracker {
            Some(payload) => Some(payload.normalized()),
            None => None,
        };
        DeployImportInput { source: self.source, media_tracker, goodreads: self.goodreads }
    }
}

/// A queued import: the request and the user it belongs to.
#[derive(Debug, PartialEq)]
pub struct ImportMedia {
    pub user_id: i32,
    pub input: DeployImportInput,
}

pub struct ImportMediaView {
    pub user_id: i32,
    pub input: DeployImportInputView,
}

impl View for ImportMedia {
    type V = ImportMediaView;

    open spec fn view(&self) -> ImportMediaView {
        ImportMediaView { user_id: self.user_id, input: self.input@ }
    }
}

impl DeepView for ImportMedia {
    type V = ImportMediaView;

    open spec fn deep_view(&self) -> ImportMediaView {
        self@
    }
}

impl Clone for ImportMedia {
    fn clone(&self) -> (copy: Self)
        ensures
            copy@ == self@,
    {
        ImportMedia { user_id: self.user_id, input: self.input.clone() }
    }
}

/// What intake makes of a submission: the job to queue, or the reason the
/// request is turned away.
pub open spec fn intake(user_id: i32, input: DeployImportInputView) -> Result<
    ImportMediaView,
    ValidationError,
> {
    match input.validated() {
        Ok(_) => Ok(ImportMediaView { user_id, input: input.normalized() }),
        Err(reason) => Err(reason),
    }
}

} // verus!
