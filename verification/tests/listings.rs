use comic_downloader::comic::{Author, Group, LabeledValue, LastChapter, Theme};
use comic_downloader::dir_map::PathWordDirs;
use comic_downloader::get_favorite_result::{ComicInFavorite, GetFavoriteResult};
use comic_downloader::responses::{
    copy_authors, copy_text, AuthorRespData, ComicInGetFavoriteRespData, ComicInSearchRespData,
    FavoriteItemRespData, GroupRespData, LabeledValueRespData, LastChapterRespData, Pagination,
    ThemeRespData,
};
use comic_downloader::search_result::{ComicInSearch, SearchResult};

fn authors() -> Vec<AuthorRespData> {
    vec![
        AuthorRespData {
            name: "Ann".to_string(),
            alias: Some("A.".to_string()),
            path_word: "ann".to_string(),
        },
        AuthorRespData { name: "Bob".to_string(), alias: None, path_word: "bob".to_string() },
    ]
}

fn favorite(path_word: &str) -> ComicInGetFavoriteRespData {
    ComicInGetFavoriteRespData {
        uuid: "u-1".to_string(),
        b_display: true,
        name: "Name".to_string(),
        path_word: path_word.to_string(),
        author: authors(),
        cover: "cover.jpg".to_string(),
        status: 1,
        popular: 42,
        datetime_updated: "2024-01-01".to_string(),
        last_chapter_id: "c-9".to_string(),
        last_chapter_name: "Nine".to_string(),
    }
}

fn found(path_word: &str) -> ComicInSearchRespData {
    ComicInSearchRespData {
        name: "Name".to_string(),
        alias: Some("Alias".to_string()),
        path_word: path_word.to_string(),
        cover: "cover.jpg".to_string(),
        ban: 0,
        author: authors(),
        popular: 7,
    }
}

fn dirs() -> PathWordDirs {
    let mut map = PathWordDirs::new();
    map.add("one".to_string(), "/d/one".to_string());
    map.add("two".to_string(), "/d/two".to_string());
    map.add("one".to_string(), "/d/one-again".to_string());
    map
}

#[test]
fn directories_are_kept_in_the_order_found() {
    let map = dirs();
    assert_eq!(map.entries.len(), 2);
    assert_eq!(
        map.get(&"one".to_string()),
        Some(&vec!["/d/one".to_string(), "/d/one-again".to_string()])
    );
    assert_eq!(map.get(&"two".to_string()), Some(&vec!["/d/two".to_string()]));
    assert_eq!(map.get(&"three".to_string()), None);
    assert_eq!(map.position(&"two".to_string()), Some(1));
    assert_eq!(PathWordDirs::new().get(&"one".to_string()), None);
}

#[test]
fn favorite_is_located_by_its_first_directory() {
    let comic = ComicInFavorite::from_resp_data(&favorite("one"), &dirs());
    assert!(comic.is_downloaded);
    assert_eq!(comic.comic_download_dir, "/d/one");
    assert_eq!(comic.uuid, "u-1");
    assert!(comic.b_display);
    assert_eq!(comic.name, "Name");
    assert_eq!(comic.path_word, "one");
    assert_eq!(comic.author, authors());
    assert_eq!(comic.cover, "cover.jpg");
    assert_eq!(comic.status, 1);
    assert_eq!(comic.popular, 42);
    assert_eq!(comic.datetime_updated, "2024-01-01");
    assert_eq!(comic.last_chapter_id, "c-9");
    assert_eq!(comic.last_chapter_name, "Nine");
}

#[test]
fn favorite_without_a_directory_is_not_downloaded() {
    let comic = ComicInFavorite::from_resp_data(&favorite("none"), &dirs());
    assert!(!comic.is_downloaded);
    assert_eq!(comic.comic_download_dir, "");
    let mut empty = PathWordDirs::new();
    empty.entries.push(("none".to_string(), Vec::new()));
    let comic = ComicInFavorite::from_resp_data(&favorite("none"), &empty);
    assert!(!comic.is_downloaded);
    assert_eq!(comic.comic_download_dir, "");
}

#[test]
fn update_leaves_an_unlisted_comic_as_it_is() {
    let mut comic = ComicInFavorite::from_resp_data(&favorite("one"), &dirs());
    let before = comic.clone();
    comic.update_fields(&PathWordDirs::new());
    assert_eq!(comic, before);
    comic.path_word = "two".to_string();
    comic.update_fields(&dirs());
    assert!(comic.is_downloaded);
    assert_eq!(comic.comic_download_dir, "/d/two");
    assert_eq!(comic.name, before.name);
}

#[test]
fn favorites_page_keeps_its_numbers() {
    let resp = Pagination {
        list: vec![
            FavoriteItemRespData { uuid: 1, b_folder: false, comic: favorite("two") },
            FavoriteItemRespData { uuid: 2, b_folder: true, comic: favorite("none") },
        ],
        total: 20,
        limit: 2,
        offset: 4,
    };
    let result = GetFavoriteResult::from_resp_data(&resp, &dirs());
    assert_eq!(result.0.total, 20);
    assert_eq!(result.0.limit, 2);
    assert_eq!(result.0.offset, 4);
    assert_eq!(result.0.list.len(), 2);
    assert_eq!(result.0.list[0].uuid, 1);
    assert!(!result.0.list[0].b_folder);
    assert_eq!(result.0.list[0].comic.comic_download_dir, "/d/two");
    assert!(result.0.list[0].comic.is_downloaded);
    assert_eq!(result.0.list[1].uuid, 2);
    assert!(result.0.list[1].b_folder);
    assert!(!result.0.list[1].comic.is_downloaded);
}

#[test]
fn search_result_is_located_by_its_first_directory() {
    let comic = ComicInSearch::from_resp_data(&found("one"), &dirs());
    assert!(comic.is_downloaded);
    assert_eq!(comic.comic_download_dir, "/d/one");
    assert_eq!(comic.name, "Name");
    assert_eq!(comic.alias, Some("Alias".to_string()));
    assert_eq!(comic.path_word, "one");
    assert_eq!(comic.cover, "cover.jpg");
    assert_eq!(comic.ban, 0);
    assert_eq!(comic.author, authors());
    assert_eq!(comic.popular, 7);
    let comic = ComicInSearch::from_resp_data(&found("none"), &dirs());
    assert!(!comic.is_downloaded);
    assert_eq!(comic.comic_download_dir, "");
    let mut comic = comic;
    let before = comic.clone();
    comic.update_fields(&dirs());
    assert_eq!(comic, before);
}

#[test]
fn search_page_keeps_its_numbers() {
    let resp = Pagination { list: vec![found("two"), found("x")], total: 9, limit: 2, offset: 0 };
    let result = SearchResult::from_resp_data(&resp, &dirs());
    assert_eq!((result.0.total, result.0.limit, result.0.offset), (9, 2, 0));
    assert_eq!(result.0.list.len(), 2);
    assert_eq!(result.0.list[0].comic_download_dir, "/d/two");
    assert!(!result.0.list[1].is_downloaded);
}

#[test]
fn upstream_values_are_taken_over() {
    let made = Author::from(authors());
    assert_eq!(made.len(), 2);
    assert_eq!(made[0].name, "Ann");
    assert_eq!(made[0].alias, Some("A.".to_string()));
    assert_eq!(made[1].alias, None);
    assert_eq!(made[1].path_word, "bob");
    assert_eq!(
        LabeledValue::from(LabeledValueRespData { value: 3, display: "three".to_string() }),
        LabeledValue { value: 3, display: "three".to_string() }
    );
    assert_eq!(
        Theme::from(vec![ThemeRespData { name: "t".to_string(), path_word: "tp".to_string() }]),
        vec![Theme { name: "t".to_string(), path_word: "tp".to_string() }]
    );
    assert_eq!(
        LastChapter::from(LastChapterRespData { uuid: "u".to_string(), name: "n".to_string() }),
        LastChapter { uuid: "u".to_string(), name: "n".to_string() }
    );
    let groups = Group::from(vec![(
        "default".to_string(),
        GroupRespData { path_word: "default".to_string(), count: 12, name: "默认".to_string() },
    )]);
    assert_eq!(
        groups,
        vec![(
            "default".to_string(),
            Group { path_word: "default".to_string(), count: 12, name: "默认".to_string() }
        )]
    );
    assert_eq!(copy_authors(&authors()), authors());
    assert_eq!(copy_text(&Some("x".to_string())), Some("x".to_string()));
    assert_eq!(copy_text(&None), None);
}
