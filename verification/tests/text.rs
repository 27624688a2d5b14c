use comic_downloader::pages::{total_img_count, url_and_index_pairs};
use comic_downloader::staging::{
    commit_plan, page_file_name, should_keep, stale_entries, temp_dir_name, CommitOp,
};
use comic_downloader::text::{chars_of, contains, replace, string_of, trim, zero_pad3};
use comic_downloader::utils::filename_filter;

#[test]
fn filename_filter_replaces_refused_characters() {
    assert_eq!(filename_filter("a\\b/c"), "a b c");
    assert_eq!(filename_filter("a:b"), "a：b");
    assert_eq!(filename_filter("a*b"), "a⭐b");
    assert_eq!(filename_filter("a?b"), "a？b");
    assert_eq!(filename_filter("a\"b"), "a'b");
    assert_eq!(filename_filter("a<b>c"), "a《b》c");
    assert_eq!(filename_filter("a|b"), "a丨b");
    assert_eq!(filename_filter("plain 名前"), "plain 名前");
}

#[test]
fn filename_filter_trims_both_ends() {
    assert_eq!(filename_filter("  title \t\n"), "title");
    assert_eq!(filename_filter("/title/"), "title");
    assert_eq!(filename_filter(" / \\ "), "");
    assert_eq!(filename_filter(""), "");
    assert_eq!(filename_filter("a  b"), "a  b");
}

#[test]
fn filename_filter_trims_what_unicode_calls_white_space() {
    let listed: Vec<u32> = vec![
        0x09, 0x0A, 0x0B, 0x0C, 0x0D, 0x20, 0x85, 0xA0, 0x1680, 0x2000, 0x2001, 0x2002, 0x2003,
        0x2004, 0x2005, 0x2006, 0x2007, 0x2008, 0x2009, 0x200A, 0x2028, 0x2029, 0x202F, 0x205F,
        0x3000,
    ];
    for code in 0..=0x10FFFFu32 {
        let c = match char::from_u32(code) {
            Some(c) => c,
            None => continue,
        };
        if c == '/' || c == '\\' {
            continue;
        }
        assert_eq!(c.is_whitespace(), listed.contains(&code), "U+{:04X}", code);
    }
    for code in listed {
        let c = char::from_u32(code).unwrap();
        let padded = format!("{}x{}", c, c);
        assert_eq!(filename_filter(&padded), "x", "U+{:04X}", code);
    }
    assert_eq!(filename_filter("\u{200B}x\u{200B}"), "\u{200B}x\u{200B}");
}

#[test]
fn zero_pad3_prints_as_the_formatter_does() {
    for n in [
        0i64,
        1,
        7,
        9,
        10,
        42,
        99,
        100,
        101,
        999,
        1000,
        1234,
        -1,
        -5,
        -9,
        -10,
        -99,
        -100,
        i64::MAX,
        i64::MIN,
        i64::MIN + 1,
    ] {
        assert_eq!(zero_pad3(n), format!("{:03}", n));
    }
    assert_eq!(zero_pad3(7), "007");
    assert_eq!(zero_pad3(-5), "-05");
}

#[test]
fn page_file_names_count_from_one() {
    assert_eq!(page_file_name(0, "webp"), "001.webp");
    assert_eq!(page_file_name(1, "webp"), "002.webp");
    assert_eq!(page_file_name(2, "jpg"), "003.jpg");
    assert_eq!(page_file_name(98, "jpg"), "099.jpg");
    assert_eq!(page_file_name(99, "jpg"), "100.jpg");
    assert_eq!(page_file_name(1233, "jpg"), "1234.jpg");
    assert_eq!(page_file_name(-1, "jpg"), "000.jpg");
    assert_eq!(page_file_name(i64::MAX - 1, "x"), format!("{}.x", i64::MAX));
}

#[test]
fn temp_dir_is_marked_as_unfinished() {
    assert_eq!(temp_dir_name("第1话"), ".下载中-第1话");
    assert_eq!(temp_dir_name(""), ".下载中-");
}

#[test]
fn stale_files_are_those_of_another_format() {
    let found = vec![
        Some("webp".to_string()),
        Some("jpg".to_string()),
        None,
        Some("webp".to_string()),
        Some("WEBP".to_string()),
        Some("".to_string()),
    ];
    assert_eq!(stale_entries(&found, "webp"), vec![1, 2, 4, 5]);
    assert_eq!(stale_entries(&found, "jpg"), vec![0, 2, 3, 4, 5]);
    assert_eq!(stale_entries(&Vec::new(), "jpg"), Vec::<usize>::new());
    assert!(should_keep(&Some("jpg".to_string()), "jpg"));
    assert!(!should_keep(&Some("jpeg".to_string()), "jpg"));
    assert!(!should_keep(&None, "jpg"));
}

#[test]
fn commit_removes_an_old_directory_first() {
    assert_eq!(commit_plan(true, false), Some(vec![CommitOp::RenameStaging]));
    assert_eq!(commit_plan(true, true), Some(vec![CommitOp::RemoveFinal, CommitOp::RenameStaging]));
    assert_eq!(commit_plan(false, false), None);
    assert_eq!(commit_plan(false, true), None);
}

#[test]
fn page_urls_ask_for_the_large_rendition() {
    let urls = vec![
        "https://img.example/a/1.c800x.webp".to_string(),
        "https://img.example/a/2.c1500x.webp".to_string(),
        "https://img.example/.c800x./.c800x.jpg".to_string(),
        "https://img.example/c800x.jpg".to_string(),
    ];
    let words = vec![3, 0, 2, 1, 9];
    let pairs = url_and_index_pairs(&urls, &words);
    assert_eq!(
        pairs,
        vec![
            ("https://img.example/a/1.c1500x.webp".to_string(), 3),
            ("https://img.example/a/2.c1500x.webp".to_string(), 0),
            ("https://img.example/.c1500x./.c1500x.jpg".to_string(), 2),
            ("https://img.example/c800x.jpg".to_string(), 1),
        ]
    );
    assert_eq!(url_and_index_pairs(&Vec::new(), &Vec::new()), Vec::new());
}

#[test]
fn page_counter_holds_32_bits() {
    assert_eq!(total_img_count(0), 0);
    assert_eq!(total_img_count(3), 3);
    assert_eq!(total_img_count(u32::MAX as usize), u32::MAX);
    assert_eq!(total_img_count(u32::MAX as usize + 1), 0);
    assert_eq!(total_img_count(u32::MAX as usize + 8), 7);
}

#[test]
fn trim_agrees_with_the_standard_library() {
    for s in [
        "",
        " ",
        "  a  ",
        "\t\na b\r\n",
        "\u{3000}全角\u{3000}",
        "x",
        " x",
        "x ",
        "\u{a0}\u{2003}mid dle\u{205f}\u{1680}",
        "\u{200b} zero width is kept \u{200b}",
    ] {
        assert_eq!(trim(s), s.trim(), "{:?}", s);
    }
}

#[test]
fn replace_agrees_with_the_standard_library() {
    for (s, pattern, with) in [
        ("", "a", "b"),
        ("aaa", "a", "b"),
        ("aaa", "aa", "b"),
        ("aaaa", "aa", "b"),
        ("abcabc", "bc", ""),
        ("abcabc", "abcabc", "x"),
        ("abc", "abcd", "x"),
        ("a.c800x.b.c800x.", ".c800x.", ".c1500x."),
        ("..c800x..c800x.c800x.", ".c800x.", "-"),
        ("日本語の本", "本", "書"),
        ("ababab", "aba", "X"),
        ("xyz", "z", "zz"),
    ] {
        assert_eq!(replace(s, pattern, with), s.replace(pattern, with), "{:?} {:?}", s, pattern);
    }
}

#[test]
fn contains_agrees_with_the_standard_library() {
    for (s, pattern) in [
        ("", ""),
        ("abc", ""),
        ("", "a"),
        ("abc", "abc"),
        ("abc", "abcd"),
        ("abc", "bc"),
        ("abc", "ac"),
        ("aab", "ab"),
        ("{order} {group_title}/", "{group_title}/"),
        ("日本語", "本語"),
        ("日本語", "語本"),
    ] {
        assert_eq!(contains(s, pattern), s.contains(pattern), "{:?} {:?}", s, pattern);
    }
}

#[test]
fn characters_round_trip() {
    let chars = chars_of("a本b");
    assert_eq!(chars, vec!['a', '本', 'b']);
    assert_eq!(string_of(&chars, 0, 3), "a本b");
    assert_eq!(string_of(&chars, 1, 2), "本");
    assert_eq!(string_of(&chars, 2, 2), "");
    assert_eq!(chars_of(""), Vec::<char>::new());
}
