//! What is known of one chapter.

use vstd::prelude::*;

verus! {

/// Whether a comic is still being published.
#[derive(Default, Debug, Clone, Copy, PartialEq, Eq, Structural)]
pub enum ComicStatus {
    #[default]
    Ongoing,
    Completed,
}

/// A directory, given as the directory it starts from and the names that lead
/// down from there, one directory each.
#[derive(Debug, PartialEq, Eq)]
pub struct DirPath {
    pub root: String,
    pub names: Vec<String>,
}

/// A directory as plain text.
pub struct DirPathView {
    pub root: Seq<char>,
    pub names: Seq<Seq<char>>,
}

impl View for DirPath {
    type V = DirPathView;

    open spec fn view(&self) -> DirPathView {
        DirPathView { root: self.root@, names: self.names@.map_values(|n: String| n@) }
    }
}

impl Clone for DirPath {
    fn clone(&self) -> (copy: Self)
        ensures
            copy@ == self@,
    {
        let mut names: Vec<String> = Vec::new();
        let mut i: usize = 0;
        while i < self.names.len()
            invariant
                i <= self.names@.len(),
                names@.len() == i,
                forall|k: int| 0 <= k < i ==> (#[trigger] names@[k])@ == self.names@[k]@,
            decreases self.names@.len() - i,
        {
            names.push(self.names[i].clone());
            i = i + 1;
        }
        let copy = DirPath { root: self.root.clone(), names };
        assert(copy@.names =~= self@.names);
        copy
    }
}

impl DirPath {
    /// The directory `root` itself.
    pub fn new(root: String) -> (dir: DirPath)
        ensures
            dir@ == (DirPathView { root: root@, names: Seq::empty() }),
    {
        let dir = DirPath { root, names: Vec::new() };
        assert(dir@.names =~= Seq::<Seq<char>>::empty());
        dir
    }

    /// The directory `name` in this one.
    pub fn join(self, name: String) -> (dir: DirPath)
        ensures
            dir@ == (DirPathView { root: self@.root, names: self@.names.push(name@) }),
    {
        let mut names = self.names;
        let ghost before = names@;
        names.push(name);
        let dir = DirPath { root: self.root, names };
        assert(dir@.names =~= before.map_values(|n: String| n@).push(name@));
        dir
    }
}

/// What is known of one chapter.
#[derive(Debug, PartialEq, Eq)]
pub struct ChapterInfo {
    pub chapter_uuid: String,
    pub chapter_title: String,
    /// How many pages the chapter has.
    pub chapter_size: i64,
    pub comic_uuid: String,
    pub comic_title: String,
    pub comic_path_word: String,
    pub group_path_word: String,
    pub group_name: String,
    /// How many chapters the chapter's group has.
    pub group_size: i64,
    /// The chapter's place in its group, a decimal number written out: `5`
    /// and `5.1` are both in order.
    pub order: String,
    pub comic_status: ComicStatus,
    /// The kind of chapter, which names a directory of its own where
    /// chapters are kept apart by kind.
    pub chapter_type: i64,
    pub is_downloaded: Option<bool>,
    /// The final directory of the chapter, once the comic's directories are
    /// resolved. It is never seen with a part of the pages only.
    pub chapter_download_dir: Option<DirPath>,
}

/// A chapter as plain values.
pub struct ChapterInfoView {
    pub chapter_uuid: Seq<char>,
    pub chapter_title: Seq<char>,
    pub chapter_size: i64,
    pub comic_uuid: Seq<char>,
    pub comic_title: Seq<char>,
    pub comic_path_word: Seq<char>,
    pub group_path_word: Seq<char>,
    pub group_name: Seq<char>,
    pub group_size: i64,
    pub order: Seq<char>,
    pub comic_status: ComicStatus,
    pub chapter_type: i64,
    pub is_downloaded: Option<bool>,
    pub chapter_download_dir: Option<DirPathView>,
}

/// An optional directory as plain text.
pub open spec fn dir_of(dir: Option<DirPath>) -> Option<DirPathView> {
    match dir {
        Some(d) => Some(d@),
        None => None,
    }
}

impl View for ChapterInfo {
    type V = ChapterInfoView;

    open spec fn view(&self) -> ChapterInfoView {
        ChapterInfoView {
            chapter_uuid: self.chapter_uuid@,
            chapter_title: self.chapter_title@,
            chapter_size: self.chapter_size,
            comic_uuid: self.comic_uuid@,
            comic_title: self.comic_title@,
            comic_path_word: self.comic_path_word@,
            group_path_word: self.group_path_word@,
            group_name: self.group_name@,
            group_size: self.group_size,
            order: self.order@,
            comic_status: self.comic_status,
            chapter_type: self.chapter_type,
            is_downloaded: self.is_downloaded,
            chapter_download_dir: dir_of(self.chapter_download_dir),
        }
    }
}

/// A copy of an optional directory.
pub fn copy_dir(dir: &Option<DirPath>) -> (copy: Option<DirPath>)
    ensures
        dir_of(copy) == dir_of(*dir),
{
    match dir {
        Some(d) => Some(d.clone()),
        None => None,
    }
}

impl Clone for ChapterInfo {
    fn clone(&self) -> (copy: Self)
        ensures
            copy@ == self@,
    {
        ChapterInfo {
            chapter_uuid: self.chapter_uuid.clone(),
            chapter_title: self.chapter_title.clone(),
            chapter_size: self.chapter_size,
            comic_uuid: self.comic_uuid.clone(),
            comic_title: self.comic_title.clone(),
            comic_path_word: self.comic_path_word.clone(),
            group_path_word: self.group_path_word.clone(),
            group_name: self.group_name.clone(),
            group_size: self.group_size,
            order: self.order.clone(),
            comic_status: self.comic_status,
            chapter_type: self.chapter_type,
            is_downloaded: self.is_downloaded,
            chapter_download_dir: copy_dir(&self.chapter_download_dir),
        }
    }
}

impl ChapterInfo {
    /// The chapter as its metadata file records it: without the two fields
    /// that say where and whether it was downloaded, which a reader of the
    /// file finds out anew.
    pub fn metadata_form(&self) -> (record: ChapterInfo)
        ensures
            record@ == (ChapterInfoView {
                is_downloaded: None,
                chapter_download_dir: None,
                ..self@
            }),
    {
        let mut record = self.clone();
        record.is_downloaded = None;
        record.chapter_download_dir = None;
        record
    }

    /// The chapter with `dir` as its final directory.
    pub fn with_download_dir(self, dir: DirPath) -> (chapter: ChapterInfo)
        ensures
            chapter@ == (ChapterInfoView { chapter_download_dir: Some(dir@), ..self@ }),
    {
        let mut chapter = self;
        chapter.chapter_download_dir = Some(dir);
        chapter
    }
}

} // verus!
