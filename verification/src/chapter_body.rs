//! The work of one chapter, from saving the comic's metadata to publishing the
//! finished directory.
//!
//! The work is a fixed sequence of outside operations. After each one the
//! caller reports how it ended, and [`ChapterBody::advance`] answers with the
//! next operation to perform, or with the state the task ends in. A chapter is
//! published only by the commit step, and the commit step is reached only with
//! every page counted as downloaded.

use vstd::prelude::*;
use crate::image_body::ImageBody;
use crate::state::DownloadTaskState;

verus! {

/// The operation whose result the body is waiting for.
#[derive(Debug, Clone, Copy, PartialEq, Eq, Structural)]
pub enum BodyStep {
    SaveComicMetadata,
    ResolvePages,
    CreateStaging,
    PruneStaging,
    DownloadImages,
    Commit,
    SaveChapterMetadata,
    Sleep,
    Finished,
}

/// What the caller reports after performing an operation.
#[derive(Debug, Clone, Copy, PartialEq, Eq, Structural)]
pub enum BodyEvent {
    /// The comic's metadata file was written, or could not be.
    ComicMetadataSaved { ok: bool },
    /// The page list was fetched and holds `page_count` pages.
    PagesResolved { page_count: u32 },
    /// The page list could not be fetched: the retries ran out, or the error
    /// allowed none.
    PagesUnavailable,
    /// The staging directory exists now, or could not be made.
    StagingCreated { ok: bool },
    /// Files of another image format were removed from the staging directory.
    StagingPruned,
    /// Every image task has ended; `downloaded` is the counter they left.
    ImagesJoined { downloaded: u32 },
    /// The staging directory was renamed onto the final path, or could not be.
    Committed { ok: bool },
    /// The chapter's metadata file was written, or could not be.
    ChapterMetadataSaved { ok: bool },
    /// The delay between chapters has passed.
    SleepDone,
}

/// What the caller has to do next.
#[derive(Debug, Clone, Copy, PartialEq, Eq, Structural)]
pub enum BodyAction {
    SaveComicMetadata,
    ResolvePages,
    CreateStaging,
    PruneStaging,
    /// Start one image task per page and wait for all of them.
    LaunchImages { total: u32 },
    /// Remove the final directory if there is one, then rename the staging
    /// directory onto it.
    CommitStaging,
    SaveChapterMetadata,
    /// Wait this many seconds, announcing each of them.
    Sleep { seconds: u64 },
    /// Put the task into this state and stop.
    Finish { state: DownloadTaskState },
}

/// Why a chapter's work failed.
#[derive(Debug, Clone, Copy, PartialEq, Eq, Structural)]
pub enum BodyFailure {
    /// The comic's metadata could not be saved.
    ComicMetadata,
    /// The page list could not be fetched.
    PageList,
    /// The staging directory could not be made.
    Staging,
    /// Not every image was downloaded.
    IncompleteDownload,
    /// The staging directory could not be renamed onto the final path.
    Commit,
}

/// The progress of one chapter's work.
#[derive(Debug, Clone, Copy, PartialEq, Eq, Structural)]
pub struct ChapterBody {
    pub step: BodyStep,
    pub total_img_count: u32,
    pub downloaded_img_count: u32,
    /// Whether the staging directory has been published.
    pub committed: bool,
    /// The state the task ended in, once the work is over.
    pub outcome: Option<DownloadTaskState>,
    /// Why the work failed, if it did.
    pub failure: Option<BodyFailure>,
    /// The delay after a published chapter, in seconds.
    pub chapter_interval_sec: u64,
}

/// Whether `event` is the report that `step` waits for.
pub open spec fn answers(step: BodyStep, event: BodyEvent) -> bool {
    match step {
        BodyStep::SaveComicMetadata => event is ComicMetadataSaved,
        BodyStep::ResolvePages => event is PagesResolved || event is PagesUnavailable,
        BodyStep::CreateStaging => event is StagingCreated,
        BodyStep::PruneStaging => event is StagingPruned,
        BodyStep::DownloadImages => event is ImagesJoined,
        BodyStep::Commit => event is Committed,
        BodyStep::SaveChapterMetadata => event is ChapterMetadataSaved,
        BodyStep::Sleep => event is SleepDone,
        BodyStep::Finished => false,
    }
}

/// The body in which the work has ended in `state`.
pub open spec fn ended(body: ChapterBody, state: DownloadTaskState) -> ChapterBody {
    ChapterBody { step: BodyStep::Finished, outcome: Some(state), ..body }
}

/// The body in which the work has failed for the reason `failure`, and the
/// operation that says so.
pub open spec fn failed(body: ChapterBody, failure: BodyFailure) -> (ChapterBody, BodyAction) {
    (
        ChapterBody { failure: Some(failure), ..ended(body, DownloadTaskState::Failed) },
        BodyAction::Finish { state: DownloadTaskState::Failed },
    )
}

/// The body that waits at `step`.
pub open spec fn moved(body: ChapterBody, step: BodyStep) -> ChapterBody {
    ChapterBody { step, ..body }
}

/// The body after `event`, and the operation it asks for. An event that the
/// current step does not wait for changes nothing and ends nothing: the
/// operation asked for is the pending one.
pub open spec fn next(body: ChapterBody, event: BodyEvent) -> (ChapterBody, BodyAction) {
    match (body.step, event) {
        (BodyStep::SaveComicMetadata, BodyEvent::ComicMetadataSaved { ok }) => if ok {
            (moved(body, BodyStep::ResolvePages), BodyAction::ResolvePages)
        } else {
            failed(body, BodyFailure::ComicMetadata)
        },
        (BodyStep::ResolvePages, BodyEvent::PagesResolved { page_count }) => (
            ChapterBody { step: BodyStep::CreateStaging, total_img_count: page_count, ..body },
            BodyAction::CreateStaging,
        ),
        (BodyStep::ResolvePages, BodyEvent::PagesUnavailable) => failed(
            body,
            BodyFailure::PageList,
        ),
        (BodyStep::CreateStaging, BodyEvent::StagingCreated { ok }) => if ok {
            (moved(body, BodyStep::PruneStaging), BodyAction::PruneStaging)
        } else {
            failed(body, BodyFailure::Staging)
        },
        (BodyStep::PruneStaging, BodyEvent::StagingPruned) => (
            moved(body, BodyStep::DownloadImages),
            BodyAction::LaunchImages { total: body.total_img_count },
        ),
        (BodyStep::DownloadImages, BodyEvent::ImagesJoined { downloaded }) => {
            let counted = ChapterBody { downloaded_img_count: downloaded, ..body };
            if downloaded == body.total_img_count {
                (moved(counted, BodyStep::Commit), BodyAction::CommitStaging)
            } else {
                failed(counted, BodyFailure::IncompleteDownload)
            }
        },
        (BodyStep::Commit, BodyEvent::Committed { ok }) => if ok {
            (
                ChapterBody { step: BodyStep::SaveChapterMetadata, committed: true, ..body },
                BodyAction::SaveChapterMetadata,
            )
        } else {
            failed(body, BodyFailure::Commit)
        },
        (BodyStep::SaveChapterMetadata, BodyEvent::ChapterMetadataSaved { ok }) => (
            moved(body, BodyStep::Sleep),
            BodyAction::Sleep { seconds: body.chapter_interval_sec },
        ),
        (BodyStep::Sleep, BodyEvent::SleepDone) => (
            ended(body, DownloadTaskState::Completed),
            BodyAction::Finish { state: DownloadTaskState::Completed },
        ),
        _ => (body, pending_action(body)),
    }
}

/// The operation that a body waiting at its step has asked for.
pub open spec fn pending_action(body: ChapterBody) -> BodyAction {
    match body.step {
        BodyStep::SaveComicMetadata => BodyAction::SaveComicMetadata,
        BodyStep::ResolvePages => BodyAction::ResolvePages,
        BodyStep::CreateStaging => BodyAction::CreateStaging,
        BodyStep::PruneStaging => BodyAction::PruneStaging,
        BodyStep::DownloadImages => BodyAction::LaunchImages { total: body.total_img_count },
        BodyStep::Commit => BodyAction::CommitStaging,
        BodyStep::SaveChapterMetadata => BodyAction::SaveChapterMetadata,
        BodyStep::Sleep => BodyAction::Sleep { seconds: body.chapter_interval_sec },
        BodyStep::Finished => BodyAction::Finish {
            state: match body.outcome {
                Some(state) => state,
                None => DownloadTaskState::Failed,
            },
        },
    }
}

impl ChapterBody {
    /// What holds of a body at every moment of its work:
    /// the commit is asked for, and has happened, only with every page
    /// counted; the work has an outcome exactly when it is over; it is over as
    /// `Completed` only after the commit, and otherwise as `Failed`.
    pub open spec fn wf(self) -> bool {
        &&& self.step == BodyStep::Commit ==> self.downloaded_img_count == self.total_img_count
        &&& self.committed ==> self.downloaded_img_count == self.total_img_count
        &&& self.committed <==> (self.step == BodyStep::SaveChapterMetadata || self.step
            == BodyStep::Sleep || self.outcome == Some(DownloadTaskState::Completed))
        &&& self.step == BodyStep::Finished <==> self.outcome is Some
        &&& self.outcome is Some ==> (self.outcome == Some(DownloadTaskState::Completed)
            || self.outcome == Some(DownloadTaskState::Failed))
        &&& self.failure is Some <==> self.outcome == Some(DownloadTaskState::Failed)
        &&& self.failure == Some(BodyFailure::IncompleteDownload) ==> self.downloaded_img_count
            != self.total_img_count
    }

    /// The body before any work, and the first operation: saving the comic's
    /// metadata. The body is well formed, and stays so whatever is reported.
    pub fn new(chapter_interval_sec: u64) -> (res: (ChapterBody, BodyAction))
        ensures
            res.0.wf(),
            res.0.step == BodyStep::SaveComicMetadata,
            res.0.total_img_count == 0,
            res.0.downloaded_img_count == 0,
            !res.0.committed,
            res.0.outcome is None,
            res.0.failure is None,
            res.0.chapter_interval_sec == chapter_interval_sec,
            res.1 == BodyAction::SaveComicMetadata,
    {
        (
            ChapterBody {
                step: BodyStep::SaveComicMetadata,
                total_img_count: 0,
                downloaded_img_count: 0,
                committed: false,
                outcome: None,
                failure: None,
                chapter_interval_sec,
            },
            BodyAction::SaveComicMetadata,
        )
    }

    /// Whether the work is over.
    pub fn is_finished(&self) -> (b: bool)
        ensures
            b == (self.step == BodyStep::Finished),
    {
        self.step == BodyStep::Finished
    }

    /// Whether the body is one that the work can have reached.
    pub fn well_formed(&self) -> (b: bool)
        ensures
            b == self.wf(),
    {
        let counted = self.downloaded_img_count == self.total_img_count;
        let completed = match self.outcome {
            Some(DownloadTaskState::Completed) => true,
            _ => false,
        };
        let failed = match self.outcome {
            Some(DownloadTaskState::Failed) => true,
            _ => false,
        };
        let published = self.step == BodyStep::SaveChapterMetadata || self.step == BodyStep::Sleep
            || completed;
        let incomplete = match self.failure {
            Some(BodyFailure::IncompleteDownload) => true,
            _ => false,
        };
        (self.step != BodyStep::Commit || counted) && (!self.committed || counted)
            && self.committed == published && (self.step == BodyStep::Finished)
            == self.outcome.is_some() && (self.outcome.is_none() || completed || failed)
            && self.failure.is_some() == failed && (!incomplete || !counted)
    }

    /// The operation the body is waiting for, to be performed again by a
    /// caller that lost track of it.
    pub fn pending(&self) -> (action: BodyAction)
        ensures
            action == pending_action(*self),
    {
        match self.step {
            BodyStep::SaveComicMetadata => BodyAction::SaveComicMetadata,
            BodyStep::ResolvePages => BodyAction::ResolvePages,
            BodyStep::CreateStaging => BodyAction::CreateStaging,
            BodyStep::PruneStaging => BodyAction::PruneStaging,
            BodyStep::DownloadImages => BodyAction::LaunchImages { total: self.total_img_count },
            BodyStep::Commit => BodyAction::CommitStaging,
            BodyStep::SaveChapterMetadata => BodyAction::SaveChapterMetadata,
            BodyStep::Sleep => BodyAction::Sleep { seconds: self.chapter_interval_sec },
            BodyStep::Finished => BodyAction::Finish {
                state: match self.outcome {
                    Some(state) => state,
                    None => DownloadTaskState::Failed,
                },
            },
        }
    }

    /// Takes the report of the operation last asked for and answers with the
    /// next one.
    ///
    /// A failure to save the comic's metadata, to fetch the page list, to make
    /// the staging directory or to rename it ends the work as `Failed`. So does
    /// a counter of downloaded images that differs from the number of pages:
    /// the commit is then never asked for. A failure to save the chapter's
    /// metadata after the commit changes nothing: the chapter is published.
    pub fn advance(&mut self, event: BodyEvent) -> (action: BodyAction)
        ensures
            (*final(self), action) == next(*old(self), event),
            old(self).wf() ==> final(self).wf(),
    {
        match (self.step, event) {
            (BodyStep::SaveComicMetadata, BodyEvent::ComicMetadataSaved { ok }) => {
                if ok {
                    self.step = BodyStep::ResolvePages;
                    BodyAction::ResolvePages
                } else {
                    self.fail(BodyFailure::ComicMetadata)
                }
            },
            (BodyStep::ResolvePages, BodyEvent::PagesResolved { page_count }) => {
                self.total_img_count = page_count;
                self.step = BodyStep::CreateStaging;
                BodyAction::CreateStaging
            },
            (BodyStep::ResolvePages, BodyEvent::PagesUnavailable) => self.fail(BodyFailure::PageList),
            (BodyStep::CreateStaging, BodyEvent::StagingCreated { ok }) => {
                if ok {
                    self.step = BodyStep::PruneStaging;
                    BodyAction::PruneStaging
                } else {
                    self.fail(BodyFailure::Staging)
                }
            },
            (BodyStep::PruneStaging, BodyEvent::StagingPruned) => {
                self.step = BodyStep::DownloadImages;
                BodyAction::LaunchImages { total: self.total_img_count }
            },
            (BodyStep::DownloadImages, BodyEvent::ImagesJoined { downloaded }) => {
                self.downloaded_img_count = downloaded;
                if downloaded == self.total_img_count {
                    self.step = BodyStep::Commit;
                    BodyAction::CommitStaging
                } else {
                    self.fail(BodyFailure::IncompleteDownload)
                }
            },
            (BodyStep::Commit, BodyEvent::Committed { ok }) => {
                if ok {
                    self.committed = true;
                    self.step = BodyStep::SaveChapterMetadata;
                    BodyAction::SaveChapterMetadata
                } else {
                    self.fail(BodyFailure::Commit)
                }
            },
            (BodyStep::SaveChapterMetadata, BodyEvent::ChapterMetadataSaved { ok: _ }) => {
                self.step = BodyStep::Sleep;
                BodyAction::Sleep { seconds: self.chapter_interval_sec }
            },
            (BodyStep::Sleep, BodyEvent::SleepDone) => {
                self.step = BodyStep::Finished;
                self.outcome = Some(DownloadTaskState::Completed);
                BodyAction::Finish { state: DownloadTaskState::Completed }
            },
            _ => self.pending(),
        }
    }

    /// Ends the work as `Failed`, for the reason given.
    fn fail(&mut self, failure: BodyFailure) -> (action: BodyAction)
        ensures
            (*final(self), action) == failed(*old(self), failure),
    {
        self.step = BodyStep::Finished;
        self.outcome = Some(DownloadTaskState::Failed);
        self.failure = Some(failure);
        BodyAction::Finish { state: DownloadTaskState::Failed }
    }
}

/// What holds of a body before a report holds of it after: the commit is
/// asked for, and has happened, only with every page counted, and never once
/// the work has failed.
pub proof fn lemma_next_keeps_well_formed(body: ChapterBody, event: BodyEvent)
    requires
        body.wf(),
    ensures
        next(body, event).0.wf(),
        next(body, event).0.chapter_interval_sec == body.chapter_interval_sec,
        body.committed ==> next(body, event).0.committed,
        next(body, event).1 == BodyAction::CommitStaging ==> next(body, event).0.downloaded_img_count
            == next(body, event).0.total_img_count,
        body.outcome is Some ==> next(body, event).0 == body,
{
}

/// The work puts its task into two states only: `Completed`, after the
/// commit, and `Failed`, without one.
pub proof fn lemma_work_ends_completed_or_failed(body: ChapterBody, event: BodyEvent)
    requires
        body.wf(),
    ensures
        next(body, event).1 matches BodyAction::Finish { state } ==> {
            &&& state == DownloadTaskState::Completed || state == DownloadTaskState::Failed
            &&& next(body, event).0.outcome == Some(state)
            &&& state == DownloadTaskState::Completed <==> next(body, event).0.committed
        },
{
}

/// A chapter whose work ends as `Completed` has been published, and with as
/// many images counted as it has pages.
pub proof fn lemma_completed_is_committed(body: ChapterBody)
    requires
        body.wf(),
        body.outcome == Some(DownloadTaskState::Completed),
    ensures
        body.committed,
        body.step == BodyStep::Finished,
        body.downloaded_img_count == body.total_img_count,
{
}

/// Once every image task has ended with a counter that differs from the number
/// of pages, the work is over as `Failed`, nothing was published, and no later
/// report changes that.
pub proof fn lemma_incomplete_chapter_fails(body: ChapterBody, downloaded: u32, later: BodyEvent)
    requires
        body.wf(),
        body.step == BodyStep::DownloadImages,
        downloaded != body.total_img_count,
    ensures
        ({
            let (after, action) = next(body, BodyEvent::ImagesJoined { downloaded });
            &&& action == BodyAction::Finish { state: DownloadTaskState::Failed }
            &&& after.outcome == Some(DownloadTaskState::Failed)
            &&& after.failure == Some(BodyFailure::IncompleteDownload)
            &&& !after.committed
            &&& after.downloaded_img_count == downloaded
            &&& after.total_img_count == body.total_img_count
            &&& next(after, later).0 == after
            &&& next(after, later).1 == BodyAction::Finish { state: DownloadTaskState::Failed }
        }),
{
}

/// A report that the current step does not wait for changes nothing: the
/// body stays as it is, and the operation it waits for is asked for again.
pub proof fn lemma_unanswered_report_changes_nothing(body: ChapterBody, event: BodyEvent)
    requires
        !answers(body.step, event),
    ensures
        next(body, event) == (body, pending_action(body)),
{
}

/// How many of the images were counted as downloaded.
pub open spec fn counted_images(images: Seq<ImageBody>) -> nat
    decreases images.len(),
{
    if images.len() == 0 {
        0
    } else if images.last().counted {
        counted_images(images.drop_last()) + 1
    } else {
        counted_images(images.drop_last())
    }
}

/// Never more images are counted than there are, and all of them only if
/// each one was.
pub proof fn lemma_counted_at_most_all(images: Seq<ImageBody>)
    ensures
        counted_images(images) <= images.len(),
        counted_images(images) == images.len() <==> forall|i: int|
            0 <= i < images.len() ==> (#[trigger] images[i]).counted,
    decreases images.len(),
{
    if images.len() > 0 {
        let init = images.drop_last();
        lemma_counted_at_most_all(init);
        if counted_images(images) == images.len() {
            assert forall|i: int| 0 <= i < images.len() implies (#[trigger] images[i]).counted by {
                if i < init.len() {
                    assert(init[i].counted);
                }
            }
        }
        if forall|i: int| 0 <= i < images.len() ==> (#[trigger] images[i]).counted {
            assert forall|i: int| 0 <= i < init.len() implies (#[trigger] init[i]).counted by {
                assert(images[i].counted);
            }
        }
    }
}

/// A chapter is committed exactly when every one of its images was counted:
/// one image that could not be fetched or saved fails the chapter.
pub proof fn lemma_every_image_counts(body: ChapterBody, images: Seq<ImageBody>)
    requires
        body.wf(),
        body.step == BodyStep::DownloadImages,
        body.total_img_count == images.len(),
    ensures
        ({
            let (after, action) = next(
                body,
                BodyEvent::ImagesJoined { downloaded: counted_images(images) as u32 },
            );
            &&& after.downloaded_img_count <= after.total_img_count
            &&& action == BodyAction::CommitStaging <==> forall|i: int|
                0 <= i < images.len() ==> (#[trigger] images[i]).counted
            &&& action != BodyAction::CommitStaging ==> action == BodyAction::Finish {
                state: DownloadTaskState::Failed,
            } && after.outcome == Some(DownloadTaskState::Failed) && !after.committed
        }),
{
    lemma_counted_at_most_all(images);
}

} // verus!
