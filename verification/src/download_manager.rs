//! The registry of chapter tasks.
//!
//! A task is known by the identifier of its chapter. A chapter has one task at
//! most, and while that task is pending, downloading or paused, no other can
//! be created for it. A task that has ended stays in the registry until a new
//! one for the same chapter takes its place.

use vstd::prelude::*;
use crate::chapter_info::ChapterInfo;
use crate::comic::{can_resolve, is_comic_resolved, Comic, GroupChapters};
use crate::config::Config;
use crate::state::DownloadTaskState;

verus! {

/// One chapter download: the comic and the chapter as they were when the task
/// was made, the task's state, and how far it has come.
#[derive(Debug, Clone, PartialEq, Eq)]
pub struct DownloadTask {
    pub comic: Comic,
    pub chapter_info: ChapterInfo,
    pub state: DownloadTaskState,
    pub downloaded_img_count: u32,
    pub total_img_count: u32,
}

/// Why a task was not created.
#[derive(Debug, Clone, Copy, PartialEq, Eq, Structural)]
pub enum CreateTaskError {
    /// The chapter has a task that is pending, downloading or paused.
    DuplicateTask,
    /// A directory of the comic cannot be named.
    DownloadDir,
    /// The comic has no chapter of that identifier.
    ChapterNotFound,
}

/// The registry knows no task for the chapter.
#[derive(Debug, Clone, Copy, PartialEq, Eq, Structural)]
pub struct NotFoundError;

/// The tasks by chapter, and the two ceilings they run under.
#[derive(Debug, Clone, PartialEq, Eq)]
pub struct DownloadManager {
    /// How many chapters may download at once.
    pub chapter_concurrency: usize,
    /// How many images may download at once, over all chapters.
    pub img_concurrency: usize,
    pub download_tasks: Vec<(String, DownloadTask)>,
}

/// Whether the chapter at `c` of the group at `g` has the identifier
/// `chapter_uuid`.
pub open spec fn is_chapter_at(groups: Seq<GroupChapters>, chapter_uuid: Seq<char>, g: int, c: int) -> bool {
    0 <= g < groups.len() && 0 <= c < groups[g].chapters@.len()
        && groups[g].chapters@[c].chapter_uuid@ == chapter_uuid
}

/// Whether the chapter at `c` of the group at `g` is the first with the
/// identifier `chapter_uuid`, going through the groups in order and through
/// each group's chapters in order.
pub open spec fn is_first_chapter_at(
    groups: Seq<GroupChapters>,
    chapter_uuid: Seq<char>,
    g: int,
    c: int,
) -> bool {
    &&& is_chapter_at(groups, chapter_uuid, g, c)
    &&& forall|h: int, d: int| (h < g || (h == g && d < c)) ==> !is_chapter_at(groups, chapter_uuid, h, d)
}

/// Whether the comic has a chapter with the identifier `chapter_uuid`.
pub open spec fn has_chapter(groups: Seq<GroupChapters>, chapter_uuid: Seq<char>) -> bool {
    exists|g: int, c: int| is_chapter_at(groups, chapter_uuid, g, c)
}

/// Whether the entry at `i` is the task of the chapter `chapter_uuid`.
pub open spec fn is_task_at(tasks: Seq<(String, DownloadTask)>, chapter_uuid: Seq<char>, i: int) -> bool {
    0 <= i < tasks.len() && tasks[i].0@ == chapter_uuid
}

/// The task of the chapter `chapter_uuid`, if the registry knows one.
pub open spec fn task_of(tasks: Seq<(String, DownloadTask)>, chapter_uuid: Seq<char>) -> Option<
    DownloadTask,
> {
    if exists|i: int| is_task_at(tasks, chapter_uuid, i) {
        Some(tasks[choose|i: int| is_task_at(tasks, chapter_uuid, i)].1)
    } else {
        None
    }
}

/// No chapter has two tasks.
pub open spec fn distinct_chapters(tasks: Seq<(String, DownloadTask)>) -> bool {
    forall|i: int, j: int| 0 <= i < j < tasks.len() ==> tasks[i].0@ != tasks[j].0@
}

/// Where no chapter has two tasks, the task at a chapter's entry is the
/// chapter's task.
pub proof fn lemma_task_at(tasks: Seq<(String, DownloadTask)>, chapter_uuid: Seq<char>, i: int)
    requires
        distinct_chapters(tasks),
        is_task_at(tasks, chapter_uuid, i),
    ensures
        task_of(tasks, chapter_uuid) == Some(tasks[i].1),
{
    let c = choose|c: int| is_task_at(tasks, chapter_uuid, c);
    if c < i {
        assert(tasks[c].0@ != tasks[i].0@);
    }
    if i < c {
        assert(tasks[i].0@ != tasks[c].0@);
    }
}

/// Taking out the entry of a chapter leaves the chapter without a task and
/// every other chapter with the task it had.
proof fn lemma_remove_task(tasks: Seq<(String, DownloadTask)>, chapter_uuid: Seq<char>, i: int)
    requires
        distinct_chapters(tasks),
        is_task_at(tasks, chapter_uuid, i),
    ensures
        distinct_chapters(tasks.remove(i)),
        task_of(tasks.remove(i), chapter_uuid) is None,
        forall|other: Seq<char>|
            other != chapter_uuid ==> task_of(tasks.remove(i), other) == task_of(tasks, other),
{
    let after = tasks.remove(i);
    assert forall|a: int, b: int| 0 <= a < b < after.len() implies after[a].0@ != after[b].0@ by {
        let a0 = if a < i {
            a
        } else {
            a + 1
        };
        let b0 = if b < i {
            b
        } else {
            b + 1
        };
        assert(after[a] == tasks[a0]);
        assert(after[b] == tasks[b0]);
    }
    assert forall|k: int| !is_task_at(after, chapter_uuid, k) by {
        if 0 <= k < after.len() {
            let k0 = if k < i {
                k
            } else {
                k + 1
            };
            assert(after[k] == tasks[k0]);
            if k0 < i {
                assert(tasks[k0].0@ != tasks[i].0@);
            } else {
                assert(tasks[i].0@ != tasks[k0].0@);
            }
        }
    }
    assert forall|other: Seq<char>| other != chapter_uuid implies task_of(after, other) == task_of(
        tasks,
        other,
    ) by {
        if exists|k: int| is_task_at(tasks, other, k) {
            let k = choose|k: int| is_task_at(tasks, other, k);
            let k1 = if k < i {
                k
            } else {
                k - 1
            };
            assert(after[k1] == tasks[k]);
            assert(is_task_at(after, other, k1));
            lemma_task_at(tasks, other, k);
            lemma_task_at(after, other, k1);
        } else {
            assert forall|k: int| !is_task_at(after, other, k) by {
                if 0 <= k < after.len() {
                    let k0 = if k < i {
                        k
                    } else {
                        k + 1
                    };
                    assert(after[k] == tasks[k0]);
                    assert(!is_task_at(tasks, other, k0));
                }
            }
        }
    }
}

/// Adding an entry for a chapter without a task gives the chapter that task
/// and leaves every other chapter with the task it had.
proof fn lemma_push_task(tasks: Seq<(String, DownloadTask)>, entry: (String, DownloadTask))
    requires
        distinct_chapters(tasks),
        task_of(tasks, entry.0@) is None,
    ensures
        distinct_chapters(tasks.push(entry)),
        task_of(tasks.push(entry), entry.0@) == Some(entry.1),
        forall|other: Seq<char>|
            other != entry.0@ ==> task_of(tasks.push(entry), other) == task_of(tasks, other),
{
    let after = tasks.push(entry);
    assert forall|a: int, b: int| 0 <= a < b < after.len() implies after[a].0@ != after[b].0@ by {
        if b == tasks.len() {
            assert(!is_task_at(tasks, entry.0@, a));
        }
    }
    assert(is_task_at(after, entry.0@, tasks.len() as int));
    lemma_task_at(after, entry.0@, tasks.len() as int);
    assert forall|other: Seq<char>| other != entry.0@ implies task_of(after, other) == task_of(
        tasks,
        other,
    ) by {
        if exists|k: int| is_task_at(tasks, other, k) {
            let k = choose|k: int| is_task_at(tasks, other, k);
            assert(is_task_at(after, other, k));
            lemma_task_at(tasks, other, k);
            lemma_task_at(after, other, k);
        } else {
            assert forall|k: int| !is_task_at(after, other, k) by {
                if 0 <= k < tasks.len() {
                    assert(!is_task_at(tasks, other, k));
                }
            }
        }
    }
}

/// Whether `task` is the task made for the chapter `chapter_uuid` of `comic`
/// under the settings `config`: pending, with no image counted, holding the
/// comic with its directories resolved and the first chapter of that
/// identifier.
pub open spec fn is_new_task(comic: Comic, chapter_uuid: Seq<char>, config: Config, task: DownloadTask) -> bool {
    &&& is_comic_resolved(comic, task.comic, config)
    &&& exists|g: int, c: int|
        is_first_chapter_at(task.comic.comic.groups@, chapter_uuid, g, c) && task.chapter_info@
            == task.comic.comic.groups@[g].chapters@[c]@
    &&& task.state == DownloadTaskState::Pending
    &&& task.downloaded_img_count == 0
    &&& task.total_img_count == 0
}

/// Whether a task can be made for the chapter `chapter_uuid` of `comic`.
pub open spec fn can_create(comic: Comic, chapter_uuid: Seq<char>, config: Config) -> bool {
    can_resolve(comic, config) && has_chapter(comic.comic.groups@, chapter_uuid)
}

impl DownloadTask {
    /// Makes the task for the chapter `chapter_uuid` of `comic`.
    ///
    /// The directories of the comic are resolved under the settings first.
    /// The task starts `Pending`, with no image counted, and keeps the comic
    /// and the chapter as they are then. Where an identifier comes twice in
    /// the comic, the first chapter of it counts.
    pub fn new(comic: Comic, chapter_uuid: &str, config: &Config) -> (res: Result<
        DownloadTask,
        CreateTaskError,
    >)
        ensures
            match res {
                Ok(task) => is_new_task(comic, chapter_uuid@, *config, task),
                Err(CreateTaskError::DownloadDir) => !can_resolve(comic, *config),
                Err(CreateTaskError::ChapterNotFound) => can_resolve(comic, *config)
                    && !has_chapter(comic.comic.groups@, chapter_uuid@),
                Err(CreateTaskError::DuplicateTask) => false,
            },
            res is Ok <==> can_create(comic, chapter_uuid@, *config),
    {
        let mut resolved = comic;
        match resolved.update_download_dir_fields_by_fmt(config) {
            Ok(()) => {},
            Err(_) => {
                return Err(CreateTaskError::DownloadDir);
            },
        }
        let wanted = chapter_uuid.to_owned();
        let mut g: usize = 0;
        while g < resolved.comic.groups.len()
            invariant
                g <= resolved.comic.groups@.len(),
                wanted@ == chapter_uuid@,
                is_comic_resolved(comic, resolved, *config),
                can_resolve(comic, *config),
                forall|h: int, d: int| h < g ==> !is_chapter_at(resolved.comic.groups@, chapter_uuid@, h, d),
            decreases resolved.comic.groups@.len() - g,
        {
            let mut c: usize = 0;
            while c < resolved.comic.groups[g].chapters.len()
                invariant
                    g < resolved.comic.groups@.len(),
                    c <= resolved.comic.groups@[g as int].chapters@.len(),
                    wanted@ == chapter_uuid@,
                    is_comic_resolved(comic, resolved, *config),
                    can_resolve(comic, *config),
                    forall|h: int, d: int|
                        (h < g || (h == g && d < c)) ==> !is_chapter_at(
                            resolved.comic.groups@,
                            chapter_uuid@,
                            h,
                            d,
                        ),
                decreases resolved.comic.groups@[g as int].chapters@.len() - c,
            {
                if resolved.comic.groups[g].chapters[c].chapter_uuid == wanted {
                    let chapter_info = resolved.comic.groups[g].chapters[c].clone();
                    assert(is_first_chapter_at(
                        resolved.comic.groups@,
                        chapter_uuid@,
                        g as int,
                        c as int,
                    ));
                    proof {
                        lemma_resolved_keeps_chapters(comic, resolved, *config, chapter_uuid@);
                        assert(is_chapter_at(resolved.comic.groups@, chapter_uuid@, g as int, c as int));
                        assert(has_chapter(resolved.comic.groups@, chapter_uuid@));
                        assert(is_first_chapter_at(
                            resolved.comic.groups@,
                            chapter_uuid@,
                            g as int,
                            c as int,
                        ) && chapter_info@ == resolved.comic.groups@[g as int].chapters@[c as int]@);
                    }
                    return Ok(
                        DownloadTask {
                            comic: resolved,
                            chapter_info,
                            state: DownloadTaskState::Pending,
                            downloaded_img_count: 0,
                            total_img_count: 0,
                        },
                    );
                }
                c = c + 1;
            }
            g = g + 1;
        }
        proof {
            lemma_resolved_keeps_chapters(comic, resolved, *config, chapter_uuid@);
            assert(!has_chapter(resolved.comic.groups@, chapter_uuid@));
        }
        Err(CreateTaskError::ChapterNotFound)
    }
}

impl DownloadManager {
    /// No chapter has two tasks.
    pub open spec fn wf(self) -> bool {
        distinct_chapters(self.download_tasks@)
    }

    /// The task of the chapter `chapter_uuid`, if there is one.
    pub open spec fn task(self, chapter_uuid: Seq<char>) -> Option<DownloadTask> {
        task_of(self.download_tasks@, chapter_uuid)
    }

    /// Whether the chapter has a task that is pending, downloading or paused.
    pub open spec fn has_active_task(self, chapter_uuid: Seq<char>) -> bool {
        match self.task(chapter_uuid) {
            Some(task) => task.state.is_active(),
            None => false,
        }
    }

    /// Whether `self` is `before` but for the task of the chapter
    /// `chapter_uuid`.
    pub open spec fn differs_at(self, before: DownloadManager, chapter_uuid: Seq<char>) -> bool {
        &&& self.chapter_concurrency == before.chapter_concurrency
        &&& self.img_concurrency == before.img_concurrency
        &&& forall|other: Seq<char>|
            other != chapter_uuid ==> self.task(other) == before.task(other)
    }

    /// A registry without tasks, under the ceilings that the settings give.
    pub fn new(config: &Config) -> (manager: DownloadManager)
        ensures
            manager.wf(),
            manager.chapter_concurrency == config.chapter_concurrency,
            manager.img_concurrency == config.img_concurrency,
            forall|chapter_uuid: Seq<char>| manager.task(chapter_uuid) is None,
    {
        DownloadManager {
            chapter_concurrency: config.chapter_concurrency,
            img_concurrency: config.img_concurrency,
            download_tasks: Vec::new(),
        }
    }

    /// Whether no chapter has two tasks.
    pub fn well_formed(&self) -> (b: bool)
        ensures
            b == self.wf(),
    {
        let mut j: usize = 0;
        while j < self.download_tasks.len()
            invariant
                j <= self.download_tasks@.len(),
                forall|a: int, b: int|
                    0 <= a < b < j ==> self.download_tasks@[a].0@ != self.download_tasks@[b].0@,
            decreases self.download_tasks@.len() - j,
        {
            let mut i: usize = 0;
            while i < j
                invariant
                    i <= j < self.download_tasks@.len(),
                    forall|a: int|
                        0 <= a < i ==> self.download_tasks@[a].0@ != self.download_tasks@[j as int].0@,
                decreases j - i,
            {
                if self.download_tasks[i].0 == self.download_tasks[j].0 {
                    return false;
                }
                i = i + 1;
            }
            j = j + 1;
        }
        true
    }

    /// Where the task of the chapter stands among the entries.
    fn position(&self, chapter_uuid: &str) -> (found: Option<usize>)
        requires
            self.wf(),
        ensures
            match found {
                Some(i) => is_task_at(self.download_tasks@, chapter_uuid@, i as int) && self.task(
                    chapter_uuid@,
                ) == Some(self.download_tasks@[i as int].1),
                None => self.task(chapter_uuid@) is None,
            },
    {
        let wanted = chapter_uuid.to_owned();
        let mut i: usize = 0;
        while i < self.download_tasks.len()
            invariant
                i <= self.download_tasks@.len(),
                wanted@ == chapter_uuid@,
                self.wf(),
                forall|j: int| 0 <= j < i ==> !is_task_at(self.download_tasks@, chapter_uuid@, j),
            decreases self.download_tasks@.len() - i,
        {
            if self.download_tasks[i].0 == wanted {
                proof {
                    lemma_task_at(self.download_tasks@, chapter_uuid@, i as int);
                }
                return Some(i);
            }
            i = i + 1;
        }
        None
    }

    /// The state of the chapter's task, if there is one.
    pub fn task_state(&self, chapter_uuid: &str) -> (state: Option<DownloadTaskState>)
        requires
            self.wf(),
        ensures
            state == match self.task(chapter_uuid@) {
                Some(task) => Some(task.state),
                None => None,
            },
    {
        match self.position(chapter_uuid) {
            Some(i) => Some(self.download_tasks[i].1.state),
            None => None,
        }
    }

    /// The task of the chapter, if there is one.
    pub fn get_task(&self, chapter_uuid: &str) -> (found: Option<&DownloadTask>)
        requires
            self.wf(),
        ensures
            match found {
                Some(task) => self.task(chapter_uuid@) == Some(*task),
                None => self.task(chapter_uuid@) is None,
            },
    {
        match self.position(chapter_uuid) {
            Some(i) => Some(&self.download_tasks[i].1),
            None => None,
        }
    }

    /// Creates the task for the chapter `chapter_uuid` of `comic`.
    ///
    /// A chapter whose task is pending, downloading or paused gets no second
    /// one: the call fails with `DuplicateTask` and changes nothing. Otherwise
    /// a task of the chapter that has ended is discarded, and the new task
    /// takes its place, pending. If the new task cannot be made, the chapter
    /// is left without a task. No other chapter's task is touched.
    pub fn create_download_task(&mut self, comic: Comic, chapter_uuid: &str, config: &Config) -> (res:
        Result<(), CreateTaskError>)
        requires
            old(self).wf(),
        ensures
            final(self).wf(),
            final(self).differs_at(*old(self), chapter_uuid@),
            match res {
                Ok(()) => final(self).task(chapter_uuid@) is Some && is_new_task(
                    comic,
                    chapter_uuid@,
                    *config,
                    final(self).task(chapter_uuid@)->0,
                ),
                Err(CreateTaskError::DuplicateTask) => final(self).task(chapter_uuid@) == old(
                    self,
                ).task(chapter_uuid@),
                Err(CreateTaskError::DownloadDir) => final(self).task(chapter_uuid@) is None
                    && !can_resolve(comic, *config),
                Err(CreateTaskError::ChapterNotFound) => final(self).task(chapter_uuid@) is None
                    && can_resolve(comic, *config) && !has_chapter(
                    comic.comic.groups@,
                    chapter_uuid@,
                ),
            },
            res == Err::<(), CreateTaskError>(CreateTaskError::DuplicateTask) <==> old(
                self,
            ).has_active_task(chapter_uuid@),
            res is Ok <==> !old(self).has_active_task(chapter_uuid@) && can_create(
                comic,
                chapter_uuid@,
                *config,
            ),
    {
        if let Some(i) = self.position(chapter_uuid) {
            if self.download_tasks[i].1.state.active() {
                return Err(CreateTaskError::DuplicateTask);
            }
            proof {
                lemma_remove_task(self.download_tasks@, chapter_uuid@, i as int);
            }
            self.download_tasks.remove(i);
        }
        let task = match DownloadTask::new(comic, chapter_uuid, config) {
            Ok(task) => task,
            Err(e) => {
                return Err(e);
            },
        };
        let entry = (chapter_uuid.to_owned(), task);
        proof {
            lemma_push_task(self.download_tasks@, entry);
        }
        self.download_tasks.push(entry);
        Ok(())
    }

    /// Puts the task of the chapter into `state`.
    ///
    /// The call fails where the chapter has no task, and changes nothing
    /// then. Otherwise only the state of that one task changes: its counters
    /// and every other task stay as they are.
    pub fn set_state(&mut self, chapter_uuid: &str, state: DownloadTaskState) -> (res: Result<
        (),
        NotFoundError,
    >)
        requires
            old(self).wf(),
        ensures
            final(self).wf(),
            final(self).differs_at(*old(self), chapter_uuid@),
            res is Err <==> old(self).task(chapter_uuid@) is None,
            match old(self).task(chapter_uuid@) {
                Some(task) => final(self).task(chapter_uuid@) == Some(
                    DownloadTask { state, ..task },
                ),
                None => final(self).task(chapter_uuid@) is None,
            },
    {
        let i = match self.position(chapter_uuid) {
            Some(i) => i,
            None => {
                return Err(NotFoundError);
            },
        };
        proof {
            lemma_remove_task(self.download_tasks@, chapter_uuid@, i as int);
        }
        let mut entry = self.download_tasks.remove(i);
        entry.1.state = state;
        proof {
            lemma_push_task(self.download_tasks@, entry);
        }
        self.download_tasks.push(entry);
        Ok(())
    }

    /// Asks the task of the chapter to pause. Its driver hands back the
    /// permit it holds when it sees the new state.
    pub fn pause_download_task(&mut self, chapter_uuid: &str) -> (res: Result<(), NotFoundError>)
        requires
            old(self).wf(),
        ensures
            final(self).wf(),
            final(self).differs_at(*old(self), chapter_uuid@),
            res is Err <==> old(self).task(chapter_uuid@) is None,
            match old(self).task(chapter_uuid@) {
                Some(task) => final(self).task(chapter_uuid@) == Some(
                    DownloadTask { state: DownloadTaskState::Paused, ..task },
                ),
                None => final(self).task(chapter_uuid@) is None,
            },
    {
        self.set_state(chapter_uuid, DownloadTaskState::Paused)
    }

    /// Asks the task of the chapter to go on: it is pending again and waits
    /// for a permit.
    pub fn resume_download_task(&mut self, chapter_uuid: &str) -> (res: Result<(), NotFoundError>)
        requires
            old(self).wf(),
        ensures
            final(self).wf(),
            final(self).differs_at(*old(self), chapter_uuid@),
            res is Err <==> old(self).task(chapter_uuid@) is None,
            match old(self).task(chapter_uuid@) {
                Some(task) => final(self).task(chapter_uuid@) == Some(
                    DownloadTask { state: DownloadTaskState::Pending, ..task },
                ),
                None => final(self).task(chapter_uuid@) is None,
            },
    {
        self.set_state(chapter_uuid, DownloadTaskState::Pending)
    }

    /// Asks the task of the chapter to stop for good.
    pub fn cancel_download_task(&mut self, chapter_uuid: &str) -> (res: Result<(), NotFoundError>)
        requires
            old(self).wf(),
        ensures
            final(self).wf(),
            final(self).differs_at(*old(self), chapter_uuid@),
            res is Err <==> old(self).task(chapter_uuid@) is None,
            match old(self).task(chapter_uuid@) {
                Some(task) => final(self).task(chapter_uuid@) == Some(
                    DownloadTask { state: DownloadTaskState::Cancelled, ..task },
                ),
                None => final(self).task(chapter_uuid@) is None,
            },
    {
        self.set_state(chapter_uuid, DownloadTaskState::Cancelled)
    }

    /// Records how far the task of the chapter has come.
    pub fn set_progress(&mut self, chapter_uuid: &str, downloaded: u32, total: u32) -> (res: Result<
        (),
        NotFoundError,
    >)
        requires
            old(self).wf(),
        ensures
            final(self).wf(),
            final(self).differs_at(*old(self), chapter_uuid@),
            res is Err <==> old(self).task(chapter_uuid@) is None,
            match old(self).task(chapter_uuid@) {
                Some(task) => final(self).task(chapter_uuid@) == Some(
                    DownloadTask {
                        downloaded_img_count: downloaded,
                        total_img_count: total,
                        ..task
                    },
                ),
                None => final(self).task(chapter_uuid@) is None,
            },
    {
        let i = match self.position(chapter_uuid) {
            Some(i) => i,
            None => {
                return Err(NotFoundError);
            },
        };
        proof {
            lemma_remove_task(self.download_tasks@, chapter_uuid@, i as int);
        }
        let mut entry = self.download_tasks.remove(i);
        entry.1.downloaded_img_count = downloaded;
        entry.1.total_img_count = total;
        proof {
            lemma_push_task(self.download_tasks@, entry);
        }
        self.download_tasks.push(entry);
        Ok(())
    }
}

/// A chapter has a second task created only once its first has ended: while
/// a task is pending, downloading or paused the registry says so, and when it
/// is cancelled, completed or failed the registry does not.
pub proof fn lemma_ended_task_gives_way(manager: DownloadManager, chapter_uuid: Seq<char>)
    requires
        manager.wf(),
        manager.task(chapter_uuid) is Some,
    ensures
        manager.has_active_task(chapter_uuid) <==> !manager.task(chapter_uuid)->0.state.is_terminal(),
{
}

/// Resolving the directories of a comic changes the identifier of none of its
/// chapters.
pub proof fn lemma_resolved_keeps_chapters(
    before: Comic,
    after: Comic,
    config: Config,
    chapter_uuid: Seq<char>,
)
    requires
        is_comic_resolved(before, after, config),
    ensures
        forall|g: int, c: int|
            is_chapter_at(before.comic.groups@, chapter_uuid, g, c) <==> is_chapter_at(
                after.comic.groups@,
                chapter_uuid,
                g,
                c,
            ),
        has_chapter(before.comic.groups@, chapter_uuid) <==> has_chapter(
            after.comic.groups@,
            chapter_uuid,
        ),
{
    assert forall|g: int, c: int|
        is_chapter_at(before.comic.groups@, chapter_uuid, g, c) <==> is_chapter_at(
            after.comic.groups@,
            chapter_uuid,
            g,
            c,
        ) by {
        if 0 <= g < before.comic.groups@.len() {
            let group = after.comic.groups@[g];
            assert(group.chapters@.len() == before.comic.groups@[g].chapters@.len());
            if 0 <= c < group.chapters@.len() {
                assert(group.chapters@[c]@.chapter_uuid
                    == before.comic.groups@[g].chapters@[c]@.chapter_uuid);
            }
        }
    }
    if has_chapter(before.comic.groups@, chapter_uuid) {
        let (g, c) = choose|g: int, c: int| is_chapter_at(before.comic.groups@, chapter_uuid, g, c);
        assert(is_chapter_at(after.comic.groups@, chapter_uuid, g, c));
    }
    if has_chapter(after.comic.groups@, chapter_uuid) {
        let (g, c) = choose|g: int, c: int| is_chapter_at(after.comic.groups@, chapter_uuid, g, c);
        assert(is_chapter_at(before.comic.groups@, chapter_uuid, g, c));
    }
}

} // verus!
