use comic_downloader::chapter_info::{ChapterInfo, ComicStatus};
use comic_downloader::comic::{Comic, ComicDetail, GroupChapters};
use comic_downloader::config::Config;
use comic_downloader::download_manager::{
    CreateTaskError, DownloadManager, DownloadTask, NotFoundError,
};
use comic_downloader::state::DownloadTaskState;

fn chapter_in(group: &str, uuid: &str, title: &str) -> ChapterInfo {
    ChapterInfo {
        chapter_uuid: uuid.to_string(),
        chapter_title: title.to_string(),
        chapter_size: 3,
        comic_uuid: "comic-1".to_string(),
        comic_title: "Comic".to_string(),
        comic_path_word: "comic".to_string(),
        group_path_word: group.to_string(),
        group_name: group.to_string(),
        group_size: 2,
        order: "1.0".to_string(),
        comic_status: ComicStatus::Ongoing,
        chapter_type: 1,
        is_downloaded: None,
        chapter_download_dir: None,
    }
}

fn sample_comic() -> Comic {
    let detail = ComicDetail {
        uuid: "comic-1".to_string(),
        name: "Comic".to_string(),
        path_word: "comic".to_string(),
        groups: vec![
            GroupChapters {
                group_path_word: "default".to_string(),
                chapters: vec![
                    chapter_in("default", "ch-1", "one"),
                    chapter_in("default", "ch-2", "two"),
                ],
            },
            GroupChapters {
                group_path_word: "extra".to_string(),
                chapters: vec![
                    chapter_in("extra", "ch-3", "three"),
                    chapter_in("extra", "ch-2", "two again"),
                ],
            },
        ],
        ..ComicDetail::default()
    };
    Comic { comic: detail, ..Comic::default() }
}

fn settings() -> Config {
    Config::default("/data".to_string(), "/export".to_string(), 2)
}

fn manager_with(chapter_uuid: &str, state: DownloadTaskState) -> DownloadManager {
    let mut manager = DownloadManager::new(&settings());
    assert_eq!(manager.create_download_task(sample_comic(), chapter_uuid, &settings()), Ok(()));
    assert_eq!(manager.set_state(chapter_uuid, state), Ok(()));
    manager
}

#[test]
fn new_registry_takes_its_ceilings_from_the_settings() {
    let manager = DownloadManager::new(&settings());
    assert_eq!(manager.chapter_concurrency, 3);
    assert_eq!(manager.img_concurrency, 30);
    assert!(manager.download_tasks.is_empty());
    assert_eq!(manager.task_state("ch-1"), None);
}

#[test]
fn new_task_is_pending_with_resolved_directories() {
    let task = DownloadTask::new(sample_comic(), "ch-3", &settings()).unwrap();
    assert_eq!(task.state, DownloadTaskState::Pending);
    assert_eq!(task.downloaded_img_count, 0);
    assert_eq!(task.total_img_count, 0);
    assert_eq!(task.chapter_info.chapter_title, "three");
    let dir = task.chapter_info.chapter_download_dir.clone().unwrap();
    assert_eq!(dir.root, "/data");
    assert_eq!(dir.names, vec!["Comic".to_string(), "extra".to_string(), "1 three".to_string()]);
    assert_eq!(task.comic.comic_download_dir.clone().unwrap().names, vec!["Comic".to_string()]);
    assert_eq!(task.comic.comic.groups[1].chapters[0], task.chapter_info);
}

#[test]
fn first_chapter_of_an_identifier_counts() {
    let task = DownloadTask::new(sample_comic(), "ch-2", &settings()).unwrap();
    assert_eq!(task.chapter_info.chapter_title, "two");
    assert_eq!(task.chapter_info.group_path_word, "default");
}

#[test]
fn task_for_an_unknown_chapter_is_not_made() {
    assert_eq!(
        DownloadTask::new(sample_comic(), "nope", &settings()),
        Err(CreateTaskError::ChapterNotFound)
    );
    let mut bad = settings();
    bad.comic_dir_fmt = "{nothing}".to_string();
    assert_eq!(DownloadTask::new(sample_comic(), "ch-1", &bad), Err(CreateTaskError::DownloadDir));
    assert_eq!(DownloadTask::new(sample_comic(), "nope", &bad), Err(CreateTaskError::DownloadDir));
}

#[test]
fn active_task_refuses_a_second_one() {
    for state in [
        DownloadTaskState::Pending,
        DownloadTaskState::Downloading,
        DownloadTaskState::Paused,
    ] {
        let mut manager = manager_with("ch-1", state);
        let before = manager.clone();
        assert_eq!(
            manager.create_download_task(sample_comic(), "ch-1", &settings()),
            Err(CreateTaskError::DuplicateTask)
        );
        assert_eq!(manager, before);
        assert_eq!(manager.task_state("ch-1"), Some(state));
    }
}

#[test]
fn ended_task_gives_way_to_a_new_one() {
    for state in [
        DownloadTaskState::Completed,
        DownloadTaskState::Failed,
        DownloadTaskState::Cancelled,
    ] {
        let mut manager = manager_with("ch-1", state);
        assert_eq!(manager.set_progress("ch-1", 2, 3), Ok(()));
        assert_eq!(manager.create_download_task(sample_comic(), "ch-1", &settings()), Ok(()));
        assert_eq!(manager.download_tasks.len(), 1);
        let task = manager.get_task("ch-1").unwrap();
        assert_eq!(task.state, DownloadTaskState::Pending);
        assert_eq!(task.downloaded_img_count, 0);
        assert_eq!(task.total_img_count, 0);
    }
}

#[test]
fn duplicate_is_reported_before_anything_else() {
    let mut manager = manager_with("ch-1", DownloadTaskState::Downloading);
    let mut bad = settings();
    bad.comic_dir_fmt = "{nothing}".to_string();
    assert_eq!(
        manager.create_download_task(sample_comic(), "ch-1", &bad),
        Err(CreateTaskError::DuplicateTask)
    );
}

#[test]
fn failed_creation_discards_the_ended_task() {
    let mut manager = manager_with("ch-1", DownloadTaskState::Completed);
    assert_eq!(manager.create_download_task(sample_comic(), "ch-2", &settings()), Ok(()));
    let mut bad = settings();
    bad.chapter_dir_fmt = "{nothing}".to_string();
    assert_eq!(
        manager.create_download_task(sample_comic(), "ch-1", &bad),
        Err(CreateTaskError::DownloadDir)
    );
    assert_eq!(manager.task_state("ch-1"), None);
    assert_eq!(manager.task_state("ch-2"), Some(DownloadTaskState::Pending));
    assert_eq!(
        manager.create_download_task(sample_comic(), "missing", &settings()),
        Err(CreateTaskError::ChapterNotFound)
    );
    assert_eq!(manager.task_state("missing"), None);
}

#[test]
fn tasks_of_other_chapters_are_untouched() {
    let mut manager = manager_with("ch-1", DownloadTaskState::Downloading);
    assert_eq!(manager.create_download_task(sample_comic(), "ch-3", &settings()), Ok(()));
    assert_eq!(manager.task_state("ch-1"), Some(DownloadTaskState::Downloading));
    assert_eq!(manager.task_state("ch-3"), Some(DownloadTaskState::Pending));
    assert_eq!(manager.cancel_download_task("ch-3"), Ok(()));
    assert_eq!(manager.task_state("ch-1"), Some(DownloadTaskState::Downloading));
    assert_eq!(manager.task_state("ch-3"), Some(DownloadTaskState::Cancelled));
}

#[test]
fn pause_leaves_the_counters_unchanged() {
    let mut manager = manager_with("ch-1", DownloadTaskState::Downloading);
    assert_eq!(manager.set_progress("ch-1", 2, 3), Ok(()));
    let before = manager.get_task("ch-1").unwrap().clone();
    assert_eq!(manager.pause_download_task("ch-1"), Ok(()));
    let after = manager.get_task("ch-1").unwrap();
    assert_eq!(after.state, DownloadTaskState::Paused);
    assert_eq!(after.downloaded_img_count, 2);
    assert_eq!(after.total_img_count, 3);
    assert_eq!(after.chapter_info, before.chapter_info);
    assert_eq!(after.comic, before.comic);
}

#[test]
fn resume_makes_the_task_pending_again() {
    let mut manager = manager_with("ch-1", DownloadTaskState::Paused);
    assert_eq!(manager.resume_download_task("ch-1"), Ok(()));
    assert_eq!(manager.task_state("ch-1"), Some(DownloadTaskState::Pending));
}

#[test]
fn control_of_an_unknown_chapter_is_refused() {
    let mut manager = manager_with("ch-1", DownloadTaskState::Downloading);
    let before = manager.clone();
    assert_eq!(manager.pause_download_task("ch-9"), Err(NotFoundError));
    assert_eq!(manager.resume_download_task("ch-9"), Err(NotFoundError));
    assert_eq!(manager.cancel_download_task("ch-9"), Err(NotFoundError));
    assert_eq!(manager.set_state("ch-9", DownloadTaskState::Failed), Err(NotFoundError));
    assert_eq!(manager.set_progress("ch-9", 1, 1), Err(NotFoundError));
    assert_eq!(manager.get_task("ch-9"), None);
    assert_eq!(manager, before);
}
