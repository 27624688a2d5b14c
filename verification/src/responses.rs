//! What the upstream answers, as far as the library reads it.

use vstd::prelude::*;

verus! {

/// An author as the upstream lists one.
#[derive(Default, Debug, Clone, PartialEq, Eq)]
pub struct AuthorRespData {
    pub name: String,
    pub alias: Option<String>,
    pub path_word: String,
}

/// A value with the text to show for it.
#[derive(Default, Debug, Clone, PartialEq, Eq)]
pub struct LabeledValueRespData {
    pub value: i64,
    pub display: String,
}

/// A theme as the upstream lists one.
#[derive(Default, Debug, Clone, PartialEq, Eq)]
pub struct ThemeRespData {
    pub name: String,
    pub path_word: String,
}

/// The newest chapter of a comic.
#[derive(Default, Debug, Clone, PartialEq, Eq)]
pub struct LastChapterRespData {
    pub uuid: String,
    pub name: String,
}

/// A group of chapters as the upstream lists one.
#[derive(Default, Debug, Clone, PartialEq, Eq)]
pub struct GroupRespData {
    pub path_word: String,
    pub count: u32,
    pub name: String,
}

/// One page of a longer list.
#[derive(Default, Debug, Clone, PartialEq, Eq)]
pub struct Pagination<T> {
    pub list: Vec<T>,
    pub total: i64,
    pub limit: i64,
    pub offset: i64,
}

/// A comic among the favorites, as the upstream lists it.
#[derive(Default, Debug, Clone, PartialEq, Eq)]
pub struct ComicInGetFavoriteRespData {
    pub uuid: String,
    pub b_display: bool,
    pub name: String,
    pub path_word: String,
    pub author: Vec<AuthorRespData>,
    pub cover: String,
    pub status: i64,
    pub popular: i64,
    pub datetime_updated: String,
    pub last_chapter_id: String,
    pub last_chapter_name: String,
}

/// One favorite, as the upstream lists it.
#[derive(Default, Debug, Clone, PartialEq, Eq)]
pub struct FavoriteItemRespData {
    pub uuid: i64,
    pub b_folder: bool,
    pub comic: ComicInGetFavoriteRespData,
}

/// A comic among the results of a search, as the upstream lists it.
#[derive(Default, Debug, Clone, PartialEq, Eq)]
pub struct ComicInSearchRespData {
    pub name: String,
    pub alias: Option<String>,
    pub path_word: String,
    pub cover: String,
    pub ban: i64,
    pub author: Vec<AuthorRespData>,
    pub popular: i64,
}

/// A chapter as the upstream lists it in a group.
#[derive(Default, Debug, Clone, PartialEq, Eq)]
pub struct ChapterInGetChaptersRespData {
    pub uuid: String,
    pub name: String,
    /// How many pages the chapter has.
    pub size: i64,
    /// How many chapters the group has.
    pub count: i64,
    /// The chapter's place in its group, a decimal number written out.
    pub order: String,
    pub type_field: i64,
}

/// What the upstream tells of a comic.
#[derive(Default, Debug, Clone, PartialEq, Eq)]
pub struct ComicDetailRespData {
    pub uuid: String,
    pub b_404: bool,
    pub b_hidden: bool,
    pub ban: i64,
    pub ban_ip: Option<bool>,
    pub name: String,
    pub alias: Option<String>,
    pub path_word: String,
    pub close_comment: bool,
    pub close_roast: bool,
    pub free_type: LabeledValueRespData,
    pub restrict: LabeledValueRespData,
    pub reclass: LabeledValueRespData,
    pub seo_baidu: Option<String>,
    pub region: LabeledValueRespData,
    pub status: LabeledValueRespData,
    pub author: Vec<AuthorRespData>,
    pub theme: Vec<ThemeRespData>,
    pub brief: String,
    pub datetime_updated: String,
    pub cover: String,
    pub last_chapter: LastChapterRespData,
}

/// The upstream's answer to a question for a comic.
#[derive(Default, Debug, Clone, PartialEq, Eq)]
pub struct GetComicRespData {
    pub is_banned: bool,
    pub is_lock: bool,
    pub is_login: bool,
    pub is_mobile_bind: bool,
    pub is_vip: bool,
    pub comic: ComicDetailRespData,
    pub popular: i64,
    /// The groups by the word that names each in addresses. No word comes
    /// twice.
    pub groups: Vec<(String, GroupRespData)>,
}

/// An author as plain text.
pub struct AuthorView {
    pub name: Seq<char>,
    pub alias: Option<Seq<char>>,
    pub path_word: Seq<char>,
}

/// An optional text as plain text.
pub open spec fn text_of(text: Option<String>) -> Option<Seq<char>> {
    match text {
        Some(s) => Some(s@),
        None => None,
    }
}

impl View for AuthorRespData {
    type V = AuthorView;

    open spec fn view(&self) -> AuthorView {
        AuthorView { name: self.name@, alias: text_of(self.alias), path_word: self.path_word@ }
    }
}

/// The authors as plain text.
pub open spec fn author_views(authors: Seq<AuthorRespData>) -> Seq<AuthorView> {
    authors.map_values(|a: AuthorRespData| a@)
}

/// A copy of an optional text.
pub fn copy_text(text: &Option<String>) -> (copy: Option<String>)
    ensures
        text_of(copy) == text_of(*text),
{
    match text {
        Some(s) => Some(s.clone()),
        None => None,
    }
}

/// A copy of a list of authors.
pub fn copy_authors(authors: &Vec<AuthorRespData>) -> (copy: Vec<AuthorRespData>)
    ensures
        author_views(copy@) == author_views(authors@),
{
    let mut copy: Vec<AuthorRespData> = Vec::new();
    let mut i: usize = 0;
    while i < authors.len()
        invariant
            i <= authors@.len(),
            copy@.len() == i,
            forall|k: int| 0 <= k < i ==> (#[trigger] copy@[k])@ == authors@[k]@,
        decreases authors@.len() - i,
    {
        let a = &authors[i];
        copy.push(
            AuthorRespData {
                name: a.name.clone(),
                alias: copy_text(&a.alias),
                path_word: a.path_word.clone(),
            },
        );
        i = i + 1;
    }
    assert(author_views(copy@) =~= author_views(authors@));
    copy
}

} // verus!
