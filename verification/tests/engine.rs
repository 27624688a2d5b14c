use comic_downloader::chapter_body::{BodyAction, BodyEvent, BodyFailure, BodyStep, ChapterBody};
use comic_downloader::driver::{ChapterDriver, ImageDriver};
use comic_downloader::image_body::{ImageAction, ImageBody, ImageEvent, ImageStep};
use comic_downloader::retry::{
    backoff_millis, cooldown_announcements, Countdown, FetchOutcome, RetryAction, RetryPolicy,
};
use comic_downloader::state::DownloadTaskState;
use std::ops::ControlFlow;

/// Runs one image to its end and says whether it was counted.
fn run_image(exists: bool, fetch_ok: bool, save_ok: bool) -> (bool, Vec<ImageAction>) {
    let (mut body, first) = ImageBody::new(0);
    let mut actions = vec![first];
    let mut counted = false;
    let mut action = first;
    loop {
        let event = match action {
            ImageAction::CheckExisting => ImageEvent::Existing { exists },
            ImageAction::Fetch => {
                if fetch_ok {
                    ImageEvent::Fetched { byte_len: 100 }
                } else {
                    ImageEvent::FetchFailed
                }
            }
            ImageAction::Save => ImageEvent::Saved { ok: save_ok },
            ImageAction::CountExisting => {
                counted = true;
                break;
            }
            ImageAction::CountDownloaded { .. } => {
                counted = true;
                ImageEvent::SleepDone
            }
            ImageAction::Wait { .. } => ImageEvent::SleepDone,
            ImageAction::Finish => break,
        };
        action = body.advance(event);
        actions.push(action);
    }
    assert!(body.is_finished());
    assert_eq!(body.counted, counted);
    (counted, actions)
}

/// Runs a chapter whose images end as `images` says, and gives the state it
/// ends in with the actions it asked for.
fn run_chapter(images: &[bool]) -> (ChapterBody, Vec<BodyAction>) {
    let (mut body, first) = ChapterBody::new(0);
    let mut actions = vec![first];
    let mut action = first;
    loop {
        let event = match action {
            BodyAction::SaveComicMetadata => BodyEvent::ComicMetadataSaved { ok: true },
            BodyAction::ResolvePages => BodyEvent::PagesResolved { page_count: images.len() as u32 },
            BodyAction::CreateStaging => BodyEvent::StagingCreated { ok: true },
            BodyAction::PruneStaging => BodyEvent::StagingPruned,
            BodyAction::LaunchImages { total } => {
                assert_eq!(total as usize, images.len());
                let mut downloaded = 0;
                for fetch_ok in images {
                    if run_image(false, *fetch_ok, true).0 {
                        downloaded += 1;
                    }
                }
                BodyEvent::ImagesJoined { downloaded }
            }
            BodyAction::CommitStaging => BodyEvent::Committed { ok: true },
            BodyAction::SaveChapterMetadata => BodyEvent::ChapterMetadataSaved { ok: true },
            BodyAction::Sleep { .. } => BodyEvent::SleepDone,
            BodyAction::Finish { .. } => break,
        };
        action = body.advance(event);
        actions.push(action);
    }
    (body, actions)
}

#[test]
fn three_pages_all_fetched_completes() {
    let (body, actions) = run_chapter(&[true, true, true]);
    assert_eq!(body.outcome, Some(DownloadTaskState::Completed));
    assert_eq!(body.failure, None);
    assert!(body.committed);
    assert_eq!(body.downloaded_img_count, 3);
    assert_eq!(body.total_img_count, 3);
    assert_eq!(
        actions,
        vec![
            BodyAction::SaveComicMetadata,
            BodyAction::ResolvePages,
            BodyAction::CreateStaging,
            BodyAction::PruneStaging,
            BodyAction::LaunchImages { total: 3 },
            BodyAction::CommitStaging,
            BodyAction::SaveChapterMetadata,
            BodyAction::Sleep { seconds: 0 },
            BodyAction::Finish { state: DownloadTaskState::Completed },
        ]
    );
}

#[test]
fn state_sequence_is_pending_downloading_completed() {
    let mut driver = ChapterDriver::new();
    let mut state = DownloadTaskState::Pending;
    let mut seen = vec![state];
    let wait = driver.eligible(state);
    assert!(wait.permit && !wait.work);
    assert!(driver.needs_permit());
    let decision = driver.acquire_chapter_permit(true, state);
    assert!(decision.go_on);
    state = decision.set_state.unwrap();
    seen.push(state);
    let wait = driver.eligible(state);
    assert!(wait.work && !wait.permit);
    let (body, _) = run_chapter(&[true, true, true]);
    state = body.outcome.unwrap();
    seen.push(state);
    assert_eq!(
        seen,
        vec![
            DownloadTaskState::Pending,
            DownloadTaskState::Downloading,
            DownloadTaskState::Completed
        ]
    );
}

#[test]
fn one_failed_image_of_three_fails_the_chapter() {
    let (body, actions) = run_chapter(&[true, false, true]);
    assert_eq!(body.downloaded_img_count, 2);
    assert_eq!(body.total_img_count, 3);
    assert_eq!(body.outcome, Some(DownloadTaskState::Failed));
    assert_eq!(body.failure, Some(BodyFailure::IncompleteDownload));
    assert!(!body.committed);
    assert!(!actions.contains(&BodyAction::CommitStaging));
    assert_eq!(actions.last(), Some(&BodyAction::Finish { state: DownloadTaskState::Failed }));
}

#[test]
fn finished_body_ignores_later_reports() {
    let (mut body, _) = run_chapter(&[false]);
    let before = body;
    let action = body.advance(BodyEvent::Committed { ok: true });
    assert_eq!(action, BodyAction::Finish { state: DownloadTaskState::Failed });
    assert_eq!(body, before);
}

#[test]
fn each_failing_step_fails_the_chapter() {
    let failed = BodyAction::Finish { state: DownloadTaskState::Failed };
    let (mut body, _) = ChapterBody::new(0);
    assert_eq!(body.advance(BodyEvent::ComicMetadataSaved { ok: false }), failed);
    assert_eq!(body.failure, Some(BodyFailure::ComicMetadata));
    let (mut body, _) = ChapterBody::new(0);
    body.advance(BodyEvent::ComicMetadataSaved { ok: true });
    assert_eq!(body.advance(BodyEvent::PagesUnavailable), failed);
    assert_eq!(body.failure, Some(BodyFailure::PageList));
    let (mut body, _) = ChapterBody::new(0);
    body.advance(BodyEvent::ComicMetadataSaved { ok: true });
    body.advance(BodyEvent::PagesResolved { page_count: 2 });
    assert_eq!(body.advance(BodyEvent::StagingCreated { ok: false }), failed);
    assert_eq!(body.failure, Some(BodyFailure::Staging));
    let (mut body, _) = ChapterBody::new(0);
    body.advance(BodyEvent::ComicMetadataSaved { ok: true });
    body.advance(BodyEvent::PagesResolved { page_count: 2 });
    body.advance(BodyEvent::StagingCreated { ok: true });
    body.advance(BodyEvent::StagingPruned);
    assert_eq!(body.advance(BodyEvent::ImagesJoined { downloaded: 2 }), BodyAction::CommitStaging);
    assert_eq!(body.advance(BodyEvent::Committed { ok: false }), failed);
    assert_eq!(body.failure, Some(BodyFailure::Commit));
    assert_eq!(body.outcome, Some(DownloadTaskState::Failed));
    assert!(!body.committed);
    assert!(body.well_formed());
}

#[test]
fn more_images_counted_than_pages_fails_too() {
    let (mut body, _) = ChapterBody::new(0);
    body.advance(BodyEvent::ComicMetadataSaved { ok: true });
    body.advance(BodyEvent::PagesResolved { page_count: 0 });
    body.advance(BodyEvent::StagingCreated { ok: true });
    body.advance(BodyEvent::StagingPruned);
    assert_eq!(
        body.advance(BodyEvent::ImagesJoined { downloaded: 1 }),
        BodyAction::Finish { state: DownloadTaskState::Failed }
    );
    assert_eq!(body.failure, Some(BodyFailure::IncompleteDownload));
}

#[test]
fn chapter_without_pages_is_committed() {
    let (body, actions) = run_chapter(&[]);
    assert_eq!(body.outcome, Some(DownloadTaskState::Completed));
    assert!(actions.contains(&BodyAction::LaunchImages { total: 0 }));
    assert!(actions.contains(&BodyAction::CommitStaging));
}

#[test]
fn failed_chapter_metadata_does_not_fail_the_chapter() {
    let (mut body, _) = ChapterBody::new(7);
    body.advance(BodyEvent::ComicMetadataSaved { ok: true });
    body.advance(BodyEvent::PagesResolved { page_count: 1 });
    body.advance(BodyEvent::StagingCreated { ok: true });
    body.advance(BodyEvent::StagingPruned);
    body.advance(BodyEvent::ImagesJoined { downloaded: 1 });
    assert_eq!(body.advance(BodyEvent::Committed { ok: true }), BodyAction::SaveChapterMetadata);
    assert_eq!(
        body.advance(BodyEvent::ChapterMetadataSaved { ok: false }),
        BodyAction::Sleep { seconds: 7 }
    );
    assert_eq!(
        body.advance(BodyEvent::SleepDone),
        BodyAction::Finish { state: DownloadTaskState::Completed }
    );
    assert_eq!(body.step, BodyStep::Finished);
}

#[test]
fn unexpected_report_repeats_the_pending_action() {
    let (mut body, _) = ChapterBody::new(0);
    let before = body;
    assert_eq!(body.advance(BodyEvent::SleepDone), BodyAction::SaveComicMetadata);
    assert_eq!(body, before);
    assert_eq!(body.pending(), BodyAction::SaveComicMetadata);
}

#[test]
fn staged_image_is_counted_without_fetch() {
    let (counted, actions) = run_image(true, false, false);
    assert!(counted);
    assert_eq!(actions, vec![ImageAction::CheckExisting, ImageAction::CountExisting]);
}

#[test]
fn fetched_image_is_counted_once() {
    let (mut body, _) = ImageBody::new(2);
    assert_eq!(body.advance(ImageEvent::Existing { exists: false }), ImageAction::Fetch);
    assert_eq!(body.advance(ImageEvent::Fetched { byte_len: 4096 }), ImageAction::Save);
    assert_eq!(
        body.advance(ImageEvent::Saved { ok: true }),
        ImageAction::CountDownloaded { bytes: 4096, seconds: 2 }
    );
    assert_eq!(body.step, ImageStep::Sleep);
    assert_eq!(body.advance(ImageEvent::Saved { ok: true }), ImageAction::Wait { seconds: 2 });
    assert_eq!(body.advance(ImageEvent::SleepDone), ImageAction::Finish);
    assert!(body.counted && body.fetched);
}

#[test]
fn unsaved_image_is_not_counted() {
    let (counted, actions) = run_image(false, true, false);
    assert!(!counted);
    assert_eq!(
        actions,
        vec![ImageAction::CheckExisting, ImageAction::Fetch, ImageAction::Save, ImageAction::Finish]
    );
    let (counted, _) = run_image(false, false, true);
    assert!(!counted);
}

#[test]
fn pause_hands_the_permit_back() {
    let mut driver = ChapterDriver::new();
    driver.acquire_chapter_permit(true, DownloadTaskState::Pending);
    assert!(driver.has_permit);
    let decision = driver.handle_state_change(DownloadTaskState::Paused);
    assert!(decision.release && decision.go_on);
    assert!(!driver.has_permit);
    let wait = driver.eligible(DownloadTaskState::Paused);
    assert!(!wait.work && !wait.permit);
    let decision = driver.handle_state_change(DownloadTaskState::Paused);
    assert!(!decision.release && decision.go_on);
}

#[test]
fn cancel_ends_the_loop() {
    let mut driver = ChapterDriver::new();
    driver.acquire_chapter_permit(true, DownloadTaskState::Pending);
    let decision = driver.handle_state_change(DownloadTaskState::Cancelled);
    assert!(!decision.go_on && !decision.release);
    let decision = driver.handle_state_change(DownloadTaskState::Downloading);
    assert!(decision.go_on && !decision.release);
}

#[test]
fn permit_granted_after_a_state_change_is_kept() {
    let mut driver = ChapterDriver::new();
    let decision = driver.acquire_chapter_permit(true, DownloadTaskState::Cancelled);
    assert!(decision.go_on);
    assert_eq!(decision.set_state, None);
    assert!(driver.has_permit);
    assert!(!driver.needs_permit());
    let decision = driver.acquire_chapter_permit(false, DownloadTaskState::Pending);
    assert_eq!(decision.set_state, Some(DownloadTaskState::Downloading));
}

#[test]
fn closed_limiter_fails_the_task() {
    let mut driver = ChapterDriver::new();
    let decision = driver.acquire_chapter_permit(false, DownloadTaskState::Pending);
    assert!(!decision.go_on);
    assert_eq!(decision.set_state, Some(DownloadTaskState::Failed));
    assert!(!driver.has_permit);
}

#[test]
fn image_driver_follows_its_chapter() {
    let mut driver = ImageDriver::new();
    let wait = driver.eligible(DownloadTaskState::Pending);
    assert!(!wait.work && !wait.permit);
    let wait = driver.eligible(DownloadTaskState::Downloading);
    assert!(!wait.work && wait.permit);
    assert!(driver.needs_permit());
    assert_eq!(driver.acquire_img_permit(true), ControlFlow::Continue(()));
    let wait = driver.eligible(DownloadTaskState::Downloading);
    assert!(wait.work && !wait.permit);
    let decision = driver.handle_state_change(DownloadTaskState::Paused);
    assert!(decision.release && decision.go_on && !driver.has_permit);
    assert_eq!(driver.acquire_img_permit(false), ControlFlow::Break(()));
    let decision = driver.handle_state_change(DownloadTaskState::Cancelled);
    assert!(!decision.go_on);
}

#[test]
fn rate_limited_once_counts_down_from_59() {
    let mut policy = RetryPolicy::new();
    let action = policy.on_outcome(FetchOutcome::RiskControl);
    assert_eq!(action, RetryAction::Cooldown { seconds: 60 });
    assert_eq!(policy.retry_count, 0);
    let ticks = match action {
        RetryAction::Cooldown { seconds } => cooldown_announcements(seconds),
        _ => unreachable!(),
    };
    assert_eq!(ticks.len(), 60);
    let expected: Vec<u32> = (0..60).rev().collect();
    assert_eq!(ticks, expected);
    assert_eq!(policy.on_outcome(FetchOutcome::Fetched), RetryAction::Done);
}

#[test]
fn transient_failures_are_retried_five_times() {
    let mut policy = RetryPolicy::new();
    for attempt in 0..5 {
        match policy.on_outcome(FetchOutcome::Transient) {
            RetryAction::Backoff { millis, retry } => {
                assert!(retry, "attempt {}", attempt);
                assert!((1000..5000).contains(&millis));
            }
            other => panic!("{:?}", other),
        }
    }
    assert_eq!(policy.retry_count, 5);
    match policy.on_outcome(FetchOutcome::Transient) {
        RetryAction::Backoff { millis, retry } => {
            assert!(!retry);
            assert!((1000..5000).contains(&millis));
        }
        other => panic!("{:?}", other),
    }
    assert_eq!(policy.retry_count, 5);
}

#[test]
fn fatal_failure_aborts_at_once() {
    let mut policy = RetryPolicy::new();
    assert_eq!(policy.on_outcome(FetchOutcome::Fatal), RetryAction::Abort);
    assert_eq!(policy.decide(FetchOutcome::Transient, 4001), RetryAction::Backoff {
        millis: 1001,
        retry: true
    });
}

#[test]
fn backoff_is_one_to_five_seconds() {
    assert_eq!(backoff_millis(0), 1000);
    assert_eq!(backoff_millis(3999), 4999);
    assert_eq!(backoff_millis(4000), 1000);
    assert_eq!(backoff_millis(u64::MAX), 1000 + u64::MAX % 4000);
}

#[test]
fn random_waits_differ() {
    let mut seen = Vec::new();
    for _ in 0..64 {
        let mut policy = RetryPolicy::new();
        if let RetryAction::Backoff { millis, .. } = policy.on_outcome(FetchOutcome::Transient) {
            if !seen.contains(&millis) {
                seen.push(millis);
            }
        }
    }
    assert!(seen.len() > 1);
}

#[test]
fn chapter_sleep_counts_down_to_one() {
    let mut countdown = Countdown::new(3);
    assert_eq!(countdown.tick(), Some(3));
    assert_eq!(countdown.tick(), Some(2));
    assert_eq!(countdown.tick(), Some(1));
    assert_eq!(countdown.tick(), None);
    assert_eq!(countdown.tick(), None);
    assert_eq!(Countdown::new(0).tick(), None);
}

#[test]
fn states_are_active_or_terminal() {
    for state in [
        DownloadTaskState::Pending,
        DownloadTaskState::Downloading,
        DownloadTaskState::Paused,
    ] {
        assert!(state.active() && !state.terminal());
    }
    for state in [
        DownloadTaskState::Cancelled,
        DownloadTaskState::Completed,
        DownloadTaskState::Failed,
    ] {
        assert!(!state.active() && state.terminal());
    }
}
