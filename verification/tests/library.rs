use comic_downloader::chapter_body::ChapterBody;
use comic_downloader::chapter_info::{ChapterInfo, ComicStatus, DirPath};
use comic_downloader::comic::{ChapterOnDisk, Comic, ComicDetail, GroupChapters};
use comic_downloader::config::Config;
use comic_downloader::dir_map::PathWordDirs;
use comic_downloader::download_manager::DownloadManager;
use comic_downloader::export::{
    export_relative_parent, get_downloaded_chapters, is_image_extension, merged_object_fate,
    strip_prefix, Archive, MergedObject,
};
use comic_downloader::image_body::{ImageBody, ImageStep};
use comic_downloader::responses::{
    AuthorRespData, ChapterInGetChaptersRespData, ComicDetailRespData, GetComicRespData,
    GroupRespData, LabeledValueRespData, LastChapterRespData, ThemeRespData,
};
use comic_downloader::retry::RetryPolicy;

fn names(list: &[&str]) -> Vec<String> {
    list.iter().map(|n| n.to_string()).collect()
}

fn chapter(group: &str, uuid: &str, downloaded: Option<bool>) -> ChapterInfo {
    ChapterInfo {
        chapter_uuid: uuid.to_string(),
        chapter_title: format!("title of {}", uuid),
        chapter_size: 1,
        comic_uuid: "c".to_string(),
        comic_title: "C".to_string(),
        comic_path_word: "c".to_string(),
        group_path_word: group.to_string(),
        group_name: group.to_string(),
        group_size: 1,
        order: "1.0".to_string(),
        comic_status: ComicStatus::Completed,
        chapter_type: 2,
        is_downloaded: downloaded,
        chapter_download_dir: None,
    }
}

fn groups() -> Vec<GroupChapters> {
    vec![
        GroupChapters {
            group_path_word: "default".to_string(),
            chapters: vec![
                chapter("default", "a", Some(true)),
                chapter("default", "b", None),
                chapter("default", "c", Some(false)),
                chapter("default", "a", Some(true)),
            ],
        },
        GroupChapters { group_path_word: "empty".to_string(), chapters: Vec::new() },
        GroupChapters {
            group_path_word: "extra".to_string(),
            chapters: vec![chapter("extra", "d", Some(true)), chapter("extra", "a", None)],
        },
        GroupChapters {
            group_path_word: "default".to_string(),
            chapters: vec![chapter("default", "z", None)],
        },
    ]
}

fn comic() -> Comic {
    Comic {
        is_downloaded: Some(true),
        comic: ComicDetail { name: "C".to_string(), groups: groups(), ..ComicDetail::default() },
        ..Comic::default()
    }
}

#[test]
fn archives_are_named_by_their_kind() {
    assert_eq!(Archive::Cbz.extension(), "cbz");
    assert_eq!(Archive::Pdf.extension(), "pdf");
}

#[test]
fn archives_take_images_only() {
    for ext in ["jpg", "jpeg", "png", "webp", "gif"] {
        assert!(is_image_extension(ext), "{}", ext);
    }
    for ext in ["", "json", "JPG", "webp ", "pdf", "jp"] {
        assert!(!is_image_extension(ext), "{}", ext);
    }
}

#[test]
fn merged_document_makes_its_own_frame() {
    assert_eq!(merged_object_fate(b"Page"), MergedObject::Page);
    for name in [&b"Catalog"[..], b"Pages", b"Outlines", b"Outline"] {
        assert_eq!(merged_object_fate(name), MergedObject::Dropped);
    }
    for name in [&b""[..], b"Font", b"XObject", b"page", b"Page ", b"Pag", b"Page\xc3\xa9"] {
        assert_eq!(merged_object_fate(name), MergedObject::Kept);
    }
}

#[test]
fn downloaded_chapters_are_listed_group_after_group() {
    let found: Vec<(String, String)> = get_downloaded_chapters(&groups())
        .into_iter()
        .map(|c| (c.group_path_word, c.chapter_uuid))
        .collect();
    assert_eq!(
        found,
        vec![
            ("default".to_string(), "a".to_string()),
            ("default".to_string(), "a".to_string()),
            ("extra".to_string(), "d".to_string()),
        ]
    );
    assert_eq!(get_downloaded_chapters(&Vec::new()), Vec::new());
}

#[test]
fn prefix_is_taken_only_where_it_stands() {
    assert_eq!(strip_prefix(names(&["a", "b", "c"]), &names(&["a", "b"])), names(&["c"]));
    assert_eq!(strip_prefix(names(&["a", "b"]), &names(&["a", "b"])), names(&[]));
    assert_eq!(strip_prefix(names(&["a", "b"]), &names(&["b"])), names(&["a", "b"]));
    assert_eq!(strip_prefix(names(&["a"]), &names(&["a", "b"])), names(&["a"]));
    assert_eq!(strip_prefix(names(&["a"]), &names(&[])), names(&["a"]));
    assert_eq!(strip_prefix(names(&[]), &names(&[])), names(&[]));
}

#[test]
fn export_parent_drops_group_and_kind() {
    let group = names(&["默认"]);
    assert_eq!(export_relative_parent(names(&["默认", "话"]), &group), names(&[]));
    assert_eq!(export_relative_parent(names(&["默认", "番外", "x"]), &group), names(&["x"]));
    assert_eq!(export_relative_parent(names(&["默认"]), &group), names(&[]));
    assert_eq!(export_relative_parent(names(&["卷", "话"]), &group), names(&["话"]));
    assert_eq!(export_relative_parent(names(&["other", "话"]), &group), names(&["other", "话"]));
    assert_eq!(export_relative_parent(names(&[]), &group), names(&[]));
    assert_eq!(export_relative_parent(names(&["话"]), &names(&[])), names(&[]));
}

#[test]
fn chapter_found_on_disk_is_marked() {
    let mut marked = comic();
    let before = marked.clone();
    let found = ChapterOnDisk {
        chapter_uuid: "a".to_string(),
        group_path_word: "extra".to_string(),
        dir: "/d/C/extra/1 a".to_string(),
    };
    marked.mark_downloaded(&found);
    let chapter = &marked.comic.groups[2].chapters[1];
    assert_eq!(chapter.is_downloaded, Some(true));
    assert_eq!(chapter.chapter_download_dir, Some(DirPath::new("/d/C/extra/1 a".to_string())));
    let mut expected = before.clone();
    expected.comic.groups[2].chapters[1] = chapter.clone();
    assert_eq!(marked, expected);
}

#[test]
fn first_group_and_first_chapter_are_marked() {
    let mut marked = comic();
    let found = ChapterOnDisk {
        chapter_uuid: "a".to_string(),
        group_path_word: "default".to_string(),
        dir: "/x".to_string(),
    };
    marked.mark_downloaded(&found);
    assert_eq!(
        marked.comic.groups[0].chapters[0].chapter_download_dir,
        Some(DirPath::new("/x".to_string()))
    );
    assert_eq!(marked.comic.groups[0].chapters[3].chapter_download_dir, None);
    let mut marked = comic();
    let before = marked.clone();
    let found = ChapterOnDisk {
        chapter_uuid: "z".to_string(),
        group_path_word: "default".to_string(),
        dir: "/x".to_string(),
    };
    marked.mark_downloaded(&found);
    assert_eq!(marked, before);
}

#[test]
fn unlisted_chapter_on_disk_marks_nothing() {
    let mut marked = comic();
    let before = marked.clone();
    for (group, uuid) in [("nowhere", "a"), ("extra", "nothing"), ("empty", "a")] {
        let found = ChapterOnDisk {
            chapter_uuid: uuid.to_string(),
            group_path_word: group.to_string(),
            dir: "/x".to_string(),
        };
        marked.mark_downloaded(&found);
        assert_eq!(marked, before);
    }
}

#[test]
fn comic_metadata_says_nothing_of_downloads() {
    let mut whole = comic();
    whole.comic_download_dir = Some(DirPath::new("/d/C".to_string()));
    whole.comic.groups[0].chapters[0].chapter_download_dir =
        Some(DirPath::new("/d/C/a".to_string()));
    let record = whole.clone().into_metadata_form();
    assert_eq!(record.is_downloaded, None);
    assert_eq!(record.comic_download_dir, whole.comic_download_dir);
    for (group, old) in record.comic.groups.iter().zip(&whole.comic.groups) {
        assert_eq!(group.group_path_word, old.group_path_word);
        assert_eq!(group.chapters.len(), old.chapters.len());
        for (chapter, old) in group.chapters.iter().zip(&old.chapters) {
            let mut expected = old.clone();
            expected.is_downloaded = None;
            assert_eq!(chapter, &expected);
        }
    }
    let mut located = comic();
    located.is_downloaded = None;
    located.set_downloaded(DirPath::new("/d/C".to_string()));
    assert_eq!(located.is_downloaded, Some(true));
    assert_eq!(located.comic_download_dir, Some(DirPath::new("/d/C".to_string())));
}

fn upstream_comic() -> GetComicRespData {
    GetComicRespData {
        is_banned: false,
        is_lock: true,
        is_login: true,
        is_mobile_bind: false,
        is_vip: true,
        comic: ComicDetailRespData {
            uuid: "u".to_string(),
            b_404: false,
            b_hidden: true,
            ban: 2,
            ban_ip: Some(false),
            name: "Name".to_string(),
            alias: Some("Alias".to_string()),
            path_word: "name".to_string(),
            close_comment: true,
            close_roast: false,
            free_type: LabeledValueRespData { value: 1, display: "free".to_string() },
            restrict: LabeledValueRespData { value: 2, display: "none".to_string() },
            reclass: LabeledValueRespData { value: 3, display: "class".to_string() },
            seo_baidu: None,
            region: LabeledValueRespData { value: 4, display: "jp".to_string() },
            status: LabeledValueRespData { value: 0, display: "ongoing".to_string() },
            author: vec![AuthorRespData {
                name: "Ann".to_string(),
                alias: None,
                path_word: "ann".to_string(),
            }],
            theme: vec![ThemeRespData { name: "t".to_string(), path_word: "tp".to_string() }],
            brief: "brief".to_string(),
            datetime_updated: "2024-05-05".to_string(),
            cover: "cover".to_string(),
            last_chapter: LastChapterRespData { uuid: "l".to_string(), name: "last".to_string() },
        },
        popular: 99,
        groups: vec![
            (
                "default".to_string(),
                GroupRespData { path_word: "default".to_string(), count: 2, name: "默认".to_string() },
            ),
            (
                "extra".to_string(),
                GroupRespData { path_word: "extra".to_string(), count: 0, name: "番外".to_string() },
            ),
        ],
    }
}

#[test]
fn comic_is_built_from_what_the_upstream_told() {
    let listed = vec![(
        "default".to_string(),
        vec![
            ChapterInGetChaptersRespData {
                uuid: "c1".to_string(),
                name: "one".to_string(),
                size: 20,
                count: 2,
                order: "1.0".to_string(),
                type_field: 1,
            },
            ChapterInGetChaptersRespData {
                uuid: "c2".to_string(),
                name: "two".to_string(),
                size: 21,
                count: 2,
                order: "1.5".to_string(),
                type_field: 3,
            },
        ],
    )];
    let resp = upstream_comic();
    let comic = Comic::from_resp_data(&resp, &listed);
    assert!(!comic.is_banned && comic.is_lock && comic.is_login && !comic.is_mobile_bind);
    assert!(comic.is_vip);
    assert_eq!(comic.popular, 99);
    assert_eq!(comic.is_downloaded, None);
    assert_eq!(comic.comic_download_dir, None);
    assert_eq!(comic.groups.len(), 2);
    assert_eq!(comic.groups[0].0, "default");
    assert_eq!(comic.groups[0].1.name, "默认");
    assert_eq!(comic.groups[1].1.count, 0);
    let detail = &comic.comic;
    assert_eq!(detail.uuid, "u");
    assert!(detail.b_hidden && !detail.b_404 && detail.close_comment && !detail.close_roast);
    assert_eq!(detail.ban, 2);
    assert_eq!(detail.ban_ip, Some(false));
    assert_eq!(detail.name, "Name");
    assert_eq!(detail.alias, Some("Alias".to_string()));
    assert_eq!(detail.path_word, "name");
    assert_eq!(detail.free_type.display, "free");
    assert_eq!(detail.restrict.value, 2);
    assert_eq!(detail.reclass.value, 3);
    assert_eq!(detail.seo_baidu, None);
    assert_eq!(detail.region.display, "jp");
    assert_eq!(detail.status.value, 0);
    assert_eq!(detail.author.len(), 1);
    assert_eq!(detail.author[0].name, "Ann");
    assert_eq!(detail.theme[0].path_word, "tp");
    assert_eq!(detail.brief, "brief");
    assert_eq!(detail.datetime_updated, "2024-05-05");
    assert_eq!(detail.cover, "cover");
    assert_eq!(detail.last_chapter.name, "last");
    assert_eq!(detail.popular, 99);
    assert_eq!(detail.groups.len(), 2);
    assert_eq!(detail.groups[1].group_path_word, "extra");
    assert!(detail.groups[1].chapters.is_empty());
    assert_eq!(
        detail.groups[0].chapters[1],
        ChapterInfo {
            chapter_uuid: "c2".to_string(),
            chapter_title: "two".to_string(),
            chapter_size: 21,
            comic_uuid: "u".to_string(),
            comic_title: "Name".to_string(),
            comic_path_word: "name".to_string(),
            group_path_word: "default".to_string(),
            group_name: "默认".to_string(),
            group_size: 2,
            order: "1.5".to_string(),
            comic_status: ComicStatus::Ongoing,
            chapter_type: 3,
            is_downloaded: None,
            chapter_download_dir: None,
        }
    );
    let mut ended = upstream_comic();
    ended.comic.status.value = 1;
    let detail = ComicDetail::from_resp_data(&ended, &listed);
    assert_eq!(detail.groups[0].chapters[0].comic_status, ComicStatus::Completed);
}

#[test]
fn values_made_by_the_library_are_well_formed() {
    assert!(ChapterBody::new(3).0.well_formed());
    assert!(ImageBody::new(3).0.well_formed());
    assert!(RetryPolicy::new().well_formed());
    assert!(!RetryPolicy { retry_count: 6 }.well_formed());
    let mut body = ImageBody::new(0).0;
    body.step = ImageStep::Sleep;
    assert!(!body.well_formed());
    let mut body = ChapterBody::new(0).0;
    body.committed = true;
    assert!(!body.well_formed());
    let settings = Config::default("/d".to_string(), "/e".to_string(), 1);
    let mut manager = DownloadManager::new(&settings);
    assert!(manager.well_formed());
    let mut dirs = PathWordDirs::new();
    dirs.add("a".to_string(), "/a".to_string());
    dirs.add("b".to_string(), "/b".to_string());
    assert!(dirs.well_formed());
    dirs.entries.push(("a".to_string(), Vec::new()));
    assert!(!dirs.well_formed());
    let detail = ComicDetail {
        groups: vec![GroupChapters {
            group_path_word: "g".to_string(),
            chapters: vec![chapter("g", "x", None)],
        }],
        ..ComicDetail::default()
    };
    let sample = Comic { comic: detail, ..Comic::default() };
    assert_eq!(manager.create_download_task(sample.clone(), "x", &settings), Ok(()));
    assert!(manager.well_formed());
    let entry = manager.download_tasks[0].clone();
    manager.download_tasks.push(entry);
    assert!(!manager.well_formed());
}
