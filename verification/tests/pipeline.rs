use importer::{
    AddMediaToCollection, CalendarDate, CreateOrUpdateCollectionInput, DeployGoodreadsImportInput,
    DeployImportInput, DeployMediaTrackerImportInput, ImportAction, ImportDetails, ImportEvent,
    ImportFailStep, ImportFailedItem, ImportItem, ImportItemIdentifier, ImportItemRating,
    ImportItemReview, ImportItemSeen, ImportReport, ImportResult, ImportResultResponse, ImportRun,
    ImportStage, ImporterService, MediaDetails, MediaImportSource, MetadataLot, MetadataSource,
    PostReviewInput, ProgressUpdateInput, Timestamp,
};
use rust_decimal::Decimal;

const USER: i32 = 11;

fn tracker_request() -> DeployImportInput {
    DeployImportInput {
        source: MediaImportSource::MediaTracker,
        media_tracker: Some(DeployMediaTrackerImportInput {
            api_url: "http://host".to_owned(),
            api_key: "token".to_owned(),
        }),
        goodreads: None,
    }
}

fn feed_request() -> DeployImportInput {
    DeployImportInput {
        source: MediaImportSource::Goodreads,
        media_tracker: None,
        goodreads: Some(DeployGoodreadsImportInput { rss_url: "https://feed".to_owned() }),
    }
}

fn report(source: MediaImportSource) -> ImportReport {
    ImportReport::start(5, USER, source, Timestamp::new(1_700_000_000, 0))
}

fn seen(id: &str, ended_on: Option<Timestamp>) -> ImportItemSeen {
    ImportItemSeen {
        id: Some(id.to_owned()),
        ended_on,
        show_season_number: Some(2),
        show_episode_number: Some(3),
        podcast_episode_number: None,
    }
}

fn rating(id: &str, text: &str) -> ImportItemRating {
    ImportItemRating {
        id: Some(id.to_owned()),
        review: Some(ImportItemReview {
            date: Some(Timestamp::new(1_600_000_000, 5)),
            spoiler: true,
            text: text.to_owned(),
        }),
        rating: Some(Decimal::new(45, 1)),
    }
}

fn item(source_id: &str, lot: MetadataLot) -> ImportItem {
    ImportItem {
        source_id: source_id.to_owned(),
        lot,
        source: MetadataSource::Tmdb,
        identifier: ImportItemIdentifier::NeedsDetails(format!("tmdb-{source_id}")),
        seen_history: vec![seen(&format!("seen-{source_id}"), None)],
        reviews: vec![rating(&format!("review-{source_id}"), "fine")],
        collections: vec![],
    }
}

fn details(title: &str) -> MediaDetails {
    MediaDetails {
        identifier: format!("book-{title}"),
        title: title.to_owned(),
        description: Some("a book".to_owned()),
        lot: MetadataLot::Book,
        source: MetadataSource::Goodreads,
        creators: vec!["someone".to_owned()],
        genres: vec!["novel".to_owned(), "classic".to_owned()],
        images: vec![],
        publish_year: Some(1999),
    }
}

fn bare(source_id: &str) -> ImportItem {
    ImportItem {
        source_id: source_id.to_owned(),
        lot: MetadataLot::Movie,
        source: MetadataSource::Tmdb,
        identifier: ImportItemIdentifier::NeedsDetails(source_id.to_owned()),
        seen_history: vec![],
        reviews: vec![],
        collections: vec![],
    }
}

/// Starts a job and answers its first two actions: the report exists, the
/// source hands over `history`.
fn fetched(request: DeployImportInput, history: ImportResult) -> (ImportRun, ImportAction) {
    let source = request.source;
    let (run, action) = ImporterService::new().import_from_source(USER, request);
    assert_eq!(action, ImportAction::StartImportJob { user_id: USER, source });
    let (run, _) = run.step(ImportEvent::JobStarted(report(source)));
    run.step(ImportEvent::Imported(history))
}

/// Runs a job to its end. Every action is answered by `answer`; the actions
/// are handed back in their order, the last one being `Complete` or `Abort`.
fn drive(
    mut run: ImportRun,
    mut action: ImportAction,
    mut answer: impl FnMut(&ImportAction) -> ImportEvent,
) -> Vec<ImportAction> {
    let mut actions = Vec::new();
    for _ in 0..10_000 {
        let over = matches!(action, ImportAction::Complete | ImportAction::Abort { .. });
        let event = answer(&action);
        actions.push(action);
        if over {
            assert!(run.is_over());
            return actions;
        }
        let next = run.step(event);
        run = next.0;
        action = next.1;
    }
    panic!("the job does not come to an end");
}

/// Commits everything, under ids that count up from 100.
fn all_goes_well() -> impl FnMut(&ImportAction) -> ImportEvent {
    let mut next_id = 100;
    move |action| match action {
        ImportAction::CommitMedia { .. } | ImportAction::CommitMediaInternal(_) => {
            next_id += 1;
            ImportEvent::Committed(next_id - 1)
        }
        _ => ImportEvent::Done,
    }
}

fn closing(actions: &[ImportAction]) -> (&ImportReport, bool, &ImportResultResponse) {
    let found: Vec<_> = actions
        .iter()
        .filter_map(|action| match action {
            ImportAction::FinishImportJob { report, success, details } => {
                Some((report, *success, details))
            }
            _ => None,
        })
        .collect();
    assert_eq!(found.len(), 1, "the report is closed once");
    found[0]
}

#[test]
fn first_action_creates_the_report() {
    let (run, action) = ImporterService::new().import_from_source(USER, feed_request());
    assert_eq!(
        action,
        ImportAction::StartImportJob { user_id: USER, source: MediaImportSource::Goodreads }
    );
    assert_eq!(run.stage(), ImportStage::AwaitingReport);
    assert!(!run.is_over());
    assert_eq!(run.failed_count(), 0);
}

#[test]
fn source_is_asked_once_the_report_exists() {
    let (run, _) = ImporterService::new().import_from_source(USER, tracker_request());
    let (run, action) = run.step(ImportEvent::JobStarted(report(MediaImportSource::MediaTracker)));
    assert_eq!(
        action,
        ImportAction::ImportMediaTracker(DeployMediaTrackerImportInput {
            api_url: "http://host".to_owned(),
            api_key: "token".to_owned(),
        })
    );
    assert_eq!(run.stage(), ImportStage::Fetching);

    let (run, _) = ImporterService::new().import_from_source(USER, feed_request());
    let (run, action) = run.step(ImportEvent::JobStarted(report(MediaImportSource::Goodreads)));
    assert_eq!(
        action,
        ImportAction::ImportGoodreads(DeployGoodreadsImportInput {
            rss_url: "https://feed".to_owned()
        })
    );
    assert_eq!(run.stage(), ImportStage::Fetching);
}

#[test]
fn three_items_of_which_the_second_fails() {
    let history = ImportResult::new(
        vec![],
        vec![
            item("one", MetadataLot::Movie),
            item("two", MetadataLot::Show),
            item("three", MetadataLot::Book),
        ],
    );
    let (run, action) = fetched(tracker_request(), history);
    let mut commits = 0;
    let actions = drive(run, action, |action| match action {
        ImportAction::CommitMedia { .. } => {
            commits += 1;
            if commits == 2 {
                ImportEvent::Failed("not found".to_owned())
            } else {
                ImportEvent::Committed(100 + commits)
            }
        }
        _ => ImportEvent::Done,
    });
    let (closed, success, summary) = closing(&actions);
    assert_eq!(closed, &report(MediaImportSource::MediaTracker));
    assert!(success);
    assert_eq!(
        summary,
        &ImportResultResponse {
            source: MediaImportSource::MediaTracker,
            import: ImportDetails { total: 2 },
            failed_items: vec![ImportFailedItem {
                lot: Some(MetadataLot::Show),
                step: ImportFailStep::MediaDetailsFromProvider,
                identifier: "two".to_owned(),
                error: Some("not found".to_owned()),
            }],
        }
    );
    let replayed: Vec<_> = actions
        .iter()
        .filter_map(|action| match action {
            ImportAction::ProgressUpdate { input, user_id } => {
                assert_eq!(*user_id, USER);
                Some((input.identifier.clone().unwrap(), input.metadata_id))
            }
            ImportAction::PostReview { input, user_id } => {
                assert_eq!(*user_id, USER);
                Some((input.identifier.clone().unwrap(), input.metadata_id))
            }
            _ => None,
        })
        .collect();
    assert_eq!(
        replayed,
        vec![
            ("seen-one".to_owned(), 101),
            ("review-one".to_owned(), 101),
            ("seen-three".to_owned(), 103),
            ("review-three".to_owned(), 103),
        ]
    );
    assert_eq!(actions.last(), Some(&ImportAction::Complete));
}

#[test]
fn every_action_of_a_small_job_in_order() {
    let mut first = item("one", MetadataLot::Show);
    first.collections = vec!["Watched".to_owned()];
    let history = ImportResult::new(
        vec![CreateOrUpdateCollectionInput {
            name: "Favourites".to_owned(),
            description: Some("the best".to_owned()),
            update_id: None,
        }],
        vec![first],
    );
    let (run, action) = fetched(tracker_request(), history);
    let actions = drive(run, action, all_goes_well());
    assert_eq!(
        actions,
        vec![
            ImportAction::CreateOrUpdateCollection {
                user_id: USER,
                input: CreateOrUpdateCollectionInput {
                    name: "Favourites".to_owned(),
                    description: Some("the best".to_owned()),
                    update_id: None,
                },
            },
            ImportAction::CommitMedia {
                lot: MetadataLot::Show,
                source: MetadataSource::Tmdb,
                identifier: "tmdb-one".to_owned(),
            },
            ImportAction::ProgressUpdate {
                input: ProgressUpdateInput {
                    identifier: Some("seen-one".to_owned()),
                    metadata_id: 100,
                    progress: Some(100),
                    date: None,
                    show_season_number: Some(2),
                    show_episode_number: Some(3),
                    podcast_episode_number: None,
                },
                user_id: USER,
            },
            ImportAction::PostReview {
                user_id: USER,
                input: PostReviewInput {
                    identifier: Some("review-one".to_owned()),
                    rating: Some(Decimal::new(45, 1)),
                    text: Some("fine".to_owned()),
                    spoiler: Some(true),
                    date: Some(Timestamp::new(1_600_000_000, 5)),
                    metadata_id: 100,
                    review_id: None,
                    season_number: None,
                    episode_number: None,
                },
            },
            ImportAction::CreateOrUpdateCollection {
                user_id: USER,
                input: CreateOrUpdateCollectionInput {
                    name: "Watched".to_owned(),
                    description: None,
                    update_id: None,
                },
            },
            ImportAction::AddMediaToCollection {
                user_id: USER,
                input: AddMediaToCollection {
                    collection_name: "Watched".to_owned(),
                    media_id: 100,
                },
            },
            ImportAction::DeployRecalculateSummaryJob { user_id: USER },
            ImportAction::FinishImportJob {
                report: report(MediaImportSource::MediaTracker),
                success: true,
                details: ImportResultResponse {
                    source: MediaImportSource::MediaTracker,
                    import: ImportDetails { total: 1 },
                    failed_items: vec![],
                },
            },
            ImportAction::Complete,
        ]
    );
}

#[test]
fn stages_follow_the_actions() {
    let mut only = item("one", MetadataLot::Show);
    only.collections = vec!["Watched".to_owned()];
    let history = ImportResult::new(vec![CreateOrUpdateCollectionInput::named(&"All".to_owned())], vec![only]);
    let (run, _) = fetched(tracker_request(), history);
    assert_eq!(run.stage(), ImportStage::UpsertingCollection);
    let (run, _) = run.step(ImportEvent::Done);
    assert_eq!(run.stage(), ImportStage::Committing);
    let (run, _) = run.step(ImportEvent::Committed(9));
    assert_eq!(run.stage(), ImportStage::ReplayingSeen);
    let (run, _) = run.step(ImportEvent::Done);
    assert_eq!(run.stage(), ImportStage::PostingReview);
    let (run, _) = run.step(ImportEvent::Done);
    assert_eq!(run.stage(), ImportStage::UpsertingItemCollection);
    let (run, _) = run.step(ImportEvent::Done);
    assert_eq!(run.stage(), ImportStage::AddingToCollection);
    let (run, _) = run.step(ImportEvent::Done);
    assert_eq!(run.stage(), ImportStage::Recalculating);
    let (run, _) = run.step(ImportEvent::Done);
    assert_eq!(run.stage(), ImportStage::Finishing);
    let (run, action) = run.step(ImportEvent::Done);
    assert_eq!(run.stage(), ImportStage::Finished);
    assert_eq!(action, ImportAction::Complete);
    assert!(run.is_over());
}

#[test]
fn four_items_of_which_two_fail() {
    let history = ImportResult::new(
        vec![],
        vec![bare("a"), bare("b"), bare("c"), bare("d")],
    );
    let (run, action) = fetched(tracker_request(), history);
    let actions = drive(run, action, |action| match action {
        ImportAction::CommitMedia { identifier, .. } if identifier == "a" || identifier == "d" => {
            ImportEvent::Failed(format!("no {identifier}"))
        }
        ImportAction::CommitMedia { .. } => ImportEvent::Committed(1),
        _ => ImportEvent::Done,
    });
    let (_, success, summary) = closing(&actions);
    assert!(success);
    assert_eq!(summary.import, ImportDetails { total: 2 });
    assert_eq!(summary.failed_items.len(), 2);
    assert_eq!(summary.failed_items[0].identifier, "a");
    assert_eq!(summary.failed_items[0].error, Some("no a".to_owned()));
    assert_eq!(summary.failed_items[1].identifier, "d");
    assert_eq!(summary.failed_items[1].error, Some("no d".to_owned()));
}

#[test]
fn every_item_fails_and_the_job_still_completes() {
    let history = ImportResult::new(vec![], vec![item("a", MetadataLot::Book), bare("b")]);
    let (run, action) = fetched(feed_request(), history);
    let actions = drive(run, action, |action| match action {
        ImportAction::CommitMedia { .. } => ImportEvent::Failed("down".to_owned()),
        _ => ImportEvent::Done,
    });
    let (_, success, summary) = closing(&actions);
    assert!(success);
    assert_eq!(summary.source, MediaImportSource::Goodreads);
    assert_eq!(summary.import.total, 0);
    assert_eq!(summary.failed_items.len(), 2);
    assert!(!actions.iter().any(|action| matches!(
        action,
        ImportAction::ProgressUpdate { .. } | ImportAction::PostReview { .. }
    )));
    assert_eq!(actions.last(), Some(&ImportAction::Complete));
}

#[test]
fn empty_history_completes_with_nothing_imported() {
    let (run, action) = fetched(feed_request(), ImportResult::new(vec![], vec![]));
    assert_eq!(action, ImportAction::DeployRecalculateSummaryJob { user_id: USER });
    let actions = drive(run, action, all_goes_well());
    let (_, success, summary) = closing(&actions);
    assert!(success);
    assert_eq!(summary.import.total, 0);
    assert!(summary.failed_items.is_empty());
}

#[test]
fn ledger_of_a_fetched_history_starts_empty() {
    let mut history = ImportResult::new(vec![], vec![bare("a")]);
    assert!(history.failed_items.is_empty());
    history.failed_items.push(ImportFailedItem {
        lot: Some(MetadataLot::Movie),
        step: ImportFailStep::ItemDetailsFromSource,
        identifier: "stray".to_owned(),
        error: None,
    });
    let (run, action) = fetched(tracker_request(), history);
    assert_eq!(run.failed_count(), 0);
    let actions = drive(run, action, all_goes_well());
    let (_, _, summary) = closing(&actions);
    assert_eq!(summary.import.total, 1);
    assert!(summary.failed_items.is_empty());
}

#[test]
fn filled_item_is_committed_as_it_is() {
    let book = ImportItem {
        source_id: "42".to_owned(),
        lot: MetadataLot::Book,
        source: MetadataSource::Goodreads,
        identifier: ImportItemIdentifier::AlreadyFilled(Box::new(details("Dune"))),
        seen_history: vec![],
        reviews: vec![],
        collections: vec![],
    };
    let (run, action) = fetched(feed_request(), ImportResult::new(vec![], vec![book]));
    assert_eq!(action, ImportAction::CommitMediaInternal(details("Dune")));
    let actions = drive(run, action, all_goes_well());
    assert!(!actions.iter().any(|action| matches!(action, ImportAction::CommitMedia { .. })));
}

#[test]
fn item_that_needs_details_is_resolved_by_its_identifier() {
    let (run, action) =
        fetched(tracker_request(), ImportResult::new(vec![], vec![item("7", MetadataLot::Podcast)]));
    assert_eq!(
        action,
        ImportAction::CommitMedia {
            lot: MetadataLot::Podcast,
            source: MetadataSource::Tmdb,
            identifier: "tmdb-7".to_owned(),
        }
    );
    let actions = drive(run, action, all_goes_well());
    assert!(!actions.iter().any(|action| matches!(action, ImportAction::CommitMediaInternal(_))));
}

#[test]
fn mixed_items_are_each_committed_in_their_way_and_in_order() {
    let filled = |title: &str| ImportItem {
        source_id: title.to_owned(),
        lot: MetadataLot::Book,
        source: MetadataSource::Goodreads,
        identifier: ImportItemIdentifier::AlreadyFilled(Box::new(details(title))),
        seen_history: vec![],
        reviews: vec![],
        collections: vec![],
    };
    let history =
        ImportResult::new(vec![], vec![filled("A"), bare("b"), filled("C"), bare("d")]);
    let (run, action) = fetched(feed_request(), history);
    let actions = drive(run, action, all_goes_well());
    let commits: Vec<String> = actions
        .iter()
        .filter_map(|action| match action {
            ImportAction::CommitMedia { identifier, .. } => Some(format!("resolve {identifier}")),
            ImportAction::CommitMediaInternal(details) => Some(format!("commit {}", details.title)),
            _ => None,
        })
        .collect();
    assert_eq!(commits, vec!["commit A", "resolve b", "commit C", "resolve d"]);
}

#[test]
fn failed_fetch_closes_the_report_as_failed() {
    let (run, _) = ImporterService::new().import_from_source(USER, feed_request());
    let (run, _) = run.step(ImportEvent::JobStarted(report(MediaImportSource::Goodreads)));
    let (run, action) = run.step(ImportEvent::Failed("feed unreachable".to_owned()));
    assert_eq!(
        action,
        ImportAction::FinishImportJob {
            report: report(MediaImportSource::Goodreads),
            success: false,
            details: ImportResultResponse {
                source: MediaImportSource::Goodreads,
                import: ImportDetails { total: 0 },
                failed_items: vec![ImportFailedItem {
                    lot: None,
                    step: ImportFailStep::ItemDetailsFromSource,
                    identifier: String::new(),
                    error: Some("feed unreachable".to_owned()),
                }],
            },
        }
    );
    assert_eq!(run.stage(), ImportStage::Failing);
    let (run, action) = run.step(ImportEvent::Done);
    assert_eq!(action, ImportAction::Abort { error: Some("feed unreachable".to_owned()) });
    assert_eq!(run.stage(), ImportStage::Aborted);
    assert!(run.is_over());
}

#[test]
fn failed_collection_of_the_history_aborts_the_job() {
    let history = ImportResult::new(
        vec![
            CreateOrUpdateCollectionInput::named(&"First".to_owned()),
            CreateOrUpdateCollectionInput::named(&"Second".to_owned()),
        ],
        vec![bare("a")],
    );
    let (run, action) = fetched(tracker_request(), history);
    let mut upserts = 0;
    let actions = drive(run, action, |action| match action {
        ImportAction::CreateOrUpdateCollection { .. } => {
            upserts += 1;
            if upserts == 2 {
                ImportEvent::Failed("store is down".to_owned())
            } else {
                ImportEvent::Done
            }
        }
        _ => ImportEvent::Done,
    });
    let (_, success, summary) = closing(&actions);
    assert!(!success);
    assert_eq!(
        summary,
        &ImportResultResponse {
            source: MediaImportSource::MediaTracker,
            import: ImportDetails { total: 0 },
            failed_items: vec![ImportFailedItem {
                lot: None,
                step: ImportFailStep::MediaDetailsFromProvider,
                identifier: "Second".to_owned(),
                error: Some("store is down".to_owned()),
            }],
        }
    );
    assert!(!actions.iter().any(|action| matches!(action, ImportAction::CommitMedia { .. })));
    assert_eq!(
        actions.last(),
        Some(&ImportAction::Abort { error: Some("store is down".to_owned()) })
    );
}

#[test]
fn failed_progress_update_aborts_the_job() {
    let history = ImportResult::new(
        vec![],
        vec![bare("a"), bare("b"), item("c", MetadataLot::Show), bare("d")],
    );
    let (run, action) = fetched(tracker_request(), history);
    let actions = drive(run, action, |action| match action {
        ImportAction::CommitMedia { identifier, .. } if identifier == "b" => {
            ImportEvent::Failed("no b".to_owned())
        }
        ImportAction::CommitMedia { .. } => ImportEvent::Committed(1),
        ImportAction::ProgressUpdate { .. } => ImportEvent::Failed("no progress".to_owned()),
        _ => ImportEvent::Done,
    });
    let (_, success, summary) = closing(&actions);
    assert!(!success);
    assert_eq!(summary.import, ImportDetails { total: 1 });
    assert_eq!(
        summary.failed_items,
        vec![
            ImportFailedItem {
                lot: Some(MetadataLot::Movie),
                step: ImportFailStep::MediaDetailsFromProvider,
                identifier: "b".to_owned(),
                error: Some("no b".to_owned()),
            },
            ImportFailedItem {
                lot: Some(MetadataLot::Show),
                step: ImportFailStep::MediaDetailsFromProvider,
                identifier: "c".to_owned(),
                error: Some("no progress".to_owned()),
            },
        ]
    );
    assert!(!actions.iter().any(|action| matches!(action, ImportAction::PostReview { .. })));
    assert!(!actions
        .iter()
        .any(|action| matches!(action, ImportAction::DeployRecalculateSummaryJob { .. })));
    assert_eq!(
        actions.last(),
        Some(&ImportAction::Abort { error: Some("no progress".to_owned()) })
    );
}

#[test]
fn failed_review_aborts_the_job() {
    let history = ImportResult::new(vec![], vec![item("a", MetadataLot::Book)]);
    let (run, action) = fetched(feed_request(), history);
    let actions = drive(run, action, |action| match action {
        ImportAction::CommitMedia { .. } => ImportEvent::Committed(1),
        ImportAction::PostReview { .. } => ImportEvent::Failed("no reviews".to_owned()),
        _ => ImportEvent::Done,
    });
    let (_, success, summary) = closing(&actions);
    assert!(!success);
    assert_eq!(summary.import.total, 0);
    assert_eq!(summary.failed_items.len(), 1);
    assert_eq!(summary.failed_items[0].identifier, "a");
    assert_eq!(
        actions.last(),
        Some(&ImportAction::Abort { error: Some("no reviews".to_owned()) })
    );
}

#[test]
fn failed_collection_of_an_item_aborts_the_job() {
    let mut only = bare("a");
    only.collections = vec!["Owned".to_owned()];
    let (run, action) = fetched(tracker_request(), ImportResult::new(vec![], vec![only]));
    let actions = drive(run, action, |action| match action {
        ImportAction::CommitMedia { .. } => ImportEvent::Committed(1),
        ImportAction::CreateOrUpdateCollection { .. } => ImportEvent::Failed("full".to_owned()),
        _ => ImportEvent::Done,
    });
    let (_, success, summary) = closing(&actions);
    assert!(!success);
    assert_eq!(
        summary.failed_items,
        vec![ImportFailedItem {
            lot: Some(MetadataLot::Movie),
            step: ImportFailStep::MediaDetailsFromProvider,
            identifier: "a".to_owned(),
            error: Some("full".to_owned()),
        }]
    );
    assert!(!actions.iter().any(|action| matches!(action, ImportAction::AddMediaToCollection { .. })));
}

#[test]
fn failure_to_add_to_a_collection_is_swallowed() {
    let mut first = bare("a");
    first.collections = vec!["Owned".to_owned(), "Loved".to_owned()];
    let history = ImportResult::new(vec![], vec![first, bare("b")]);
    let (run, action) = fetched(tracker_request(), history);
    let actions = drive(run, action, |action| match action {
        ImportAction::CommitMedia { .. } => ImportEvent::Committed(8),
        ImportAction::AddMediaToCollection { .. } => ImportEvent::Failed("locked".to_owned()),
        _ => ImportEvent::Done,
    });
    let (_, success, summary) = closing(&actions);
    assert!(success);
    assert_eq!(summary.import.total, 2);
    assert!(summary.failed_items.is_empty());
    let added: Vec<_> = actions
        .iter()
        .filter_map(|action| match action {
            ImportAction::AddMediaToCollection { input, .. } => {
                Some((input.collection_name.clone(), input.media_id))
            }
            _ => None,
        })
        .collect();
    assert_eq!(added, vec![("Owned".to_owned(), 8), ("Loved".to_owned(), 8)]);
    assert_eq!(actions.last(), Some(&ImportAction::Complete));
}

#[test]
fn failure_to_recalculate_the_summary_is_swallowed() {
    let (run, action) = fetched(feed_request(), ImportResult::new(vec![], vec![bare("a")]));
    let actions = drive(run, action, |action| match action {
        ImportAction::CommitMedia { .. } => ImportEvent::Committed(8),
        ImportAction::DeployRecalculateSummaryJob { .. } => {
            ImportEvent::Failed("queue is full".to_owned())
        }
        _ => ImportEvent::Done,
    });
    let (_, success, summary) = closing(&actions);
    assert!(success);
    assert_eq!(summary.import.total, 1);
    assert_eq!(actions.last(), Some(&ImportAction::Complete));
}

#[test]
fn job_without_a_report_is_given_up_at_once() {
    let (run, _) = ImporterService::new().import_from_source(USER, feed_request());
    let (run, action) = run.step(ImportEvent::Failed("no database".to_owned()));
    assert_eq!(action, ImportAction::Abort { error: Some("no database".to_owned()) });
    assert_eq!(run.stage(), ImportStage::Aborted);
    let (run, action) = run.step(ImportEvent::Done);
    assert_eq!(action, ImportAction::Abort { error: Some("no database".to_owned()) });
    assert_eq!(run.stage(), ImportStage::Aborted);
}

#[test]
fn report_that_cannot_be_closed_gives_the_job_up() {
    let (run, action) = fetched(feed_request(), ImportResult::new(vec![], vec![]));
    assert_eq!(action, ImportAction::DeployRecalculateSummaryJob { user_id: USER });
    let (run, action) = run.step(ImportEvent::Done);
    assert!(matches!(action, ImportAction::FinishImportJob { success: true, .. }));
    let (run, action) = run.step(ImportEvent::Failed("row is gone".to_owned()));
    assert_eq!(action, ImportAction::Abort { error: Some("row is gone".to_owned()) });
    assert!(run.is_over());
}

#[test]
fn event_that_answers_nothing_counts_as_a_failure_without_a_reason() {
    let (run, _) = ImporterService::new().import_from_source(USER, feed_request());
    let (_, action) = run.step(ImportEvent::Committed(4));
    assert_eq!(action, ImportAction::Abort { error: None });

    let (run, action) = fetched(feed_request(), ImportResult::new(vec![], vec![bare("a"), bare("b")]));
    assert!(matches!(action, ImportAction::CommitMedia { .. }));
    let (run, action) = run.step(ImportEvent::Done);
    assert!(matches!(action, ImportAction::CommitMedia { .. }));
    assert_eq!(run.failed_count(), 1);
    let actions = drive(run, action, all_goes_well());
    let (_, success, summary) = closing(&actions);
    assert!(success);
    assert_eq!(summary.import.total, 1);
    assert_eq!(
        summary.failed_items,
        vec![ImportFailedItem {
            lot: Some(MetadataLot::Movie),
            step: ImportFailStep::MediaDetailsFromProvider,
            identifier: "a".to_owned(),
            error: None,
        }]
    );
}

#[test]
fn finished_job_stays_finished() {
    let (run, action) = fetched(feed_request(), ImportResult::new(vec![], vec![]));
    let (run, _) = run.step(ImportEvent::Done);
    let _ = action;
    let (run, _) = run.step(ImportEvent::Done);
    assert_eq!(run.stage(), ImportStage::Finished);
    let (run, action) = run.step(ImportEvent::Failed("late".to_owned()));
    assert_eq!(action, ImportAction::Complete);
    assert_eq!(run.stage(), ImportStage::Finished);
    let (run, action) = run.step(ImportEvent::Imported(ImportResult::new(vec![], vec![bare("x")])));
    assert_eq!(action, ImportAction::Complete);
    assert_eq!(run.stage(), ImportStage::Finished);
}

#[test]
fn seen_entry_is_replayed_as_complete_on_the_day_it_ended() {
    let mut only = bare("a");
    only.seen_history = vec![
        ImportItemSeen {
            id: Some("s1".to_owned()),
            ended_on: Some(Timestamp::new(1_431_648_000, 0)),
            show_season_number: None,
            show_episode_number: None,
            podcast_episode_number: Some(12),
        },
        ImportItemSeen {
            id: None,
            ended_on: Some(Timestamp::new(1_431_648_000 + 86_399, 999_999_999)),
            show_season_number: Some(1),
            show_episode_number: Some(4),
            podcast_episode_number: None,
        },
        ImportItemSeen {
            id: None,
            ended_on: Some(Timestamp::new(-1, 0)),
            show_season_number: None,
            show_episode_number: None,
            podcast_episode_number: None,
        },
    ];
    let (run, action) = fetched(tracker_request(), ImportResult::new(vec![], vec![only]));
    let actions = drive(run, action, |action| match action {
        ImportAction::CommitMedia { .. } => ImportEvent::Committed(77),
        _ => ImportEvent::Done,
    });
    let updates: Vec<_> = actions
        .into_iter()
        .filter_map(|action| match action {
            ImportAction::ProgressUpdate { input, .. } => Some(input),
            _ => None,
        })
        .collect();
    assert_eq!(
        updates,
        vec![
            ProgressUpdateInput {
                identifier: Some("s1".to_owned()),
                metadata_id: 77,
                progress: Some(100),
                date: Some(CalendarDate { year: 2015, month: 5, day: 15 }),
                show_season_number: None,
                show_episode_number: None,
                podcast_episode_number: Some(12),
            },
            ProgressUpdateInput {
                identifier: None,
                metadata_id: 77,
                progress: Some(100),
                date: Some(CalendarDate { year: 2015, month: 5, day: 15 }),
                show_season_number: Some(1),
                show_episode_number: Some(4),
                podcast_episode_number: None,
            },
            ProgressUpdateInput {
                identifier: None,
                metadata_id: 77,
                progress: Some(100),
                date: Some(CalendarDate { year: 1969, month: 12, day: 31 }),
                show_season_number: None,
                show_episode_number: None,
                podcast_episode_number: None,
            },
        ]
    );
}

#[test]
fn rating_without_a_review_is_posted_without_text() {
    let mut only = bare("a");
    only.reviews = vec![ImportItemRating {
        id: None,
        review: None,
        rating: Some(Decimal::new(3, 0)),
    }];
    let (run, action) = fetched(feed_request(), ImportResult::new(vec![], vec![only]));
    let actions = drive(run, action, |action| match action {
        ImportAction::CommitMedia { .. } => ImportEvent::Committed(5),
        _ => ImportEvent::Done,
    });
    let posted: Vec<_> = actions
        .into_iter()
        .filter_map(|action| match action {
            ImportAction::PostReview { input, .. } => Some(input),
            _ => None,
        })
        .collect();
    assert_eq!(
        posted,
        vec![PostReviewInput {
            identifier: None,
            rating: Some(Decimal::new(3, 0)),
            text: None,
            spoiler: None,
            date: None,
            metadata_id: 5,
            review_id: None,
            season_number: None,
            episode_number: None,
        }]
    );
}

#[test]
fn review_without_a_date_is_posted_without_one() {
    let entry = ImportItemRating {
        id: Some("r".to_owned()),
        review: Some(ImportItemReview { date: None, spoiler: false, text: "good".to_owned() }),
        rating: None,
    };
    assert_eq!(
        entry.post_review(31),
        PostReviewInput {
            identifier: Some("r".to_owned()),
            rating: None,
            text: Some("good".to_owned()),
            spoiler: Some(false),
            date: None,
            metadata_id: 31,
            review_id: None,
            season_number: None,
            episode_number: None,
        }
    );
}

#[test]
fn copies_equal_what_they_copy() {
    let mut full = item("one", MetadataLot::Show);
    full.collections = vec!["Watched".to_owned()];
    full.identifier = ImportItemIdentifier::AlreadyFilled(Box::new(details("Dune")));
    assert_eq!(full.clone(), full);
    let history = ImportResult::new(
        vec![CreateOrUpdateCollectionInput::named(&"All".to_owned())],
        vec![full, bare("b")],
    );
    assert_eq!(history.clone(), history);
    assert_eq!(details("Emma").clone(), details("Emma"));
    assert_eq!(tracker_request().clone(), tracker_request());
    assert_eq!(feed_request().clone(), feed_request());
}
