//! A comic and what belongs to it.

use vstd::prelude::*;
use vstd::string::*;
use crate::chapter_info::{
    dir_of,
    ChapterInfo,
    ChapterInfoView,
    ComicStatus,
    DirPath,
    DirPathView,
};
use crate::config::Config;
use crate::dir_fmt::{
    chapter_dir,
    chapter_fmt_override,
    fmt_without_group,
    type_dir,
    type_dir_name,
    ChapterDirFmtParams,
};
use crate::naming::{format_dir_names, join_all, named_dir, ComicDirFmtParams, NamingError};
use crate::responses::{
    copy_text,
    text_of,
    AuthorRespData,
    ChapterInGetChaptersRespData,
    ComicDetailRespData,
    GetComicRespData,
    GroupRespData,
    LabeledValueRespData,
    LastChapterRespData,
    ThemeRespData,
};

verus! {

/// Who made a comic.
#[derive(Default, Debug, Clone, PartialEq, Eq)]
pub struct Author {
    pub name: String,
    pub alias: Option<String>,
    pub path_word: String,
}

/// A value with the text to show for it.
#[derive(Default, Debug, Clone, PartialEq, Eq)]
pub struct LabeledValue {
    pub value: i64,
    pub display: String,
}

/// What a comic is about.
#[derive(Default, Debug, Clone, PartialEq, Eq)]
pub struct Theme {
    pub name: String,
    pub path_word: String,
}

/// The newest chapter of a comic.
#[derive(Default, Debug, Clone, PartialEq, Eq)]
pub struct LastChapter {
    pub uuid: String,
    pub name: String,
}

/// A group of chapters.
#[derive(Default, Debug, Clone, PartialEq, Eq)]
pub struct Group {
    pub path_word: String,
    pub count: u32,
    pub name: String,
}

/// The chapters of a group, under the word that names the group in addresses.
#[derive(Debug, Clone, PartialEq, Eq)]
pub struct GroupChapters {
    pub group_path_word: String,
    pub chapters: Vec<ChapterInfo>,
}

/// What the upstream tells of a comic.
#[derive(Default, Debug, Clone, PartialEq, Eq)]
pub struct ComicDetail {
    pub uuid: String,
    pub b_404: bool,
    pub b_hidden: bool,
    pub ban: i64,
    pub ban_ip: Option<bool>,
    pub name: String,
    pub alias: Option<String>,
    pub path_word: String,
    pub close_comment: bool,
    pub close_roast: bool,
    pub free_type: LabeledValue,
    pub restrict: LabeledValue,
    pub reclass: LabeledValue,
    pub seo_baidu: Option<String>,
    pub region: LabeledValue,
    pub status: LabeledValue,
    pub author: Vec<Author>,
    pub theme: Vec<Theme>,
    pub brief: String,
    pub datetime_updated: String,
    pub cover: String,
    pub last_chapter: LastChapter,
    pub popular: i64,
    /// The chapters of each group. No group comes twice.
    pub groups: Vec<GroupChapters>,
}

/// A comic, with where it lies on disk once that is resolved.
#[derive(Default, Debug, Clone, PartialEq, Eq)]
pub struct Comic {
    pub is_banned: bool,
    pub is_lock: bool,
    pub is_login: bool,
    pub is_mobile_bind: bool,
    pub is_vip: bool,
    pub comic: ComicDetail,
    pub popular: i64,
    /// The groups by the word that names each in addresses.
    pub groups: Vec<(String, Group)>,
    pub is_downloaded: Option<bool>,
    /// The directory of the comic. No chapter of it can be downloaded before
    /// this is known.
    pub comic_download_dir: Option<DirPath>,
}

/// The names of the authors, with a comma and a space between them.
pub open spec fn author_names(authors: Seq<Author>) -> Seq<char>
    decreases authors.len(),
{
    if authors.len() == 0 {
        Seq::empty()
    } else if authors.len() == 1 {
        authors[0].name@
    } else {
        author_names(authors.drop_last()) + seq![',', ' '] + authors.last().name@
    }
}

impl Author {
    /// The authors that the upstream listed.
    pub fn from(author: Vec<AuthorRespData>) -> (authors: Vec<Author>)
        ensures
            authors@.len() == author@.len(),
            forall|i: int|
                0 <= i < author@.len() ==> {
                    let a = #[trigger] authors@[i];
                    &&& a.name@ == author@[i].name@
                    &&& text_of(a.alias) == text_of(author@[i].alias)
                    &&& a.path_word@ == author@[i].path_word@
                },
    {
        authors_of(&author)
    }
}

/// The authors that the upstream listed.
fn authors_of(author: &Vec<AuthorRespData>) -> (authors: Vec<Author>)
    ensures
        authors@.len() == author@.len(),
        forall|i: int|
            0 <= i < author@.len() ==> {
                let a = #[trigger] authors@[i];
                &&& a.name@ == author@[i].name@
                &&& text_of(a.alias) == text_of(author@[i].alias)
                &&& a.path_word@ == author@[i].path_word@
            },
{
    let mut authors: Vec<Author> = Vec::new();
    let mut i: usize = 0;
    while i < author.len()
        invariant
            i <= author@.len(),
            authors@.len() == i,
            forall|k: int|
                0 <= k < i ==> {
                    let a = #[trigger] authors@[k];
                    &&& a.name@ == author@[k].name@
                    &&& text_of(a.alias) == text_of(author@[k].alias)
                    &&& a.path_word@ == author@[k].path_word@
                },
        decreases author@.len() - i,
    {
        let a = &author[i];
        authors.push(
            Author {
                name: a.name.clone(),
                alias: copy_text(&a.alias),
                path_word: a.path_word.clone(),
            },
        );
        i = i + 1;
    }
    authors
}

impl LabeledValue {
    /// The labeled value that the upstream sent.
    pub fn from(labeled_value: LabeledValueRespData) -> (value: LabeledValue)
        ensures
            value.value == labeled_value.value,
            value.display == labeled_value.display,
    {
        LabeledValue { value: labeled_value.value, display: labeled_value.display }
    }
}

impl Theme {
    /// The themes that the upstream listed.
    pub fn from(theme: Vec<ThemeRespData>) -> (themes: Vec<Theme>)
        ensures
            themes@.len() == theme@.len(),
            forall|i: int|
                0 <= i < theme@.len() ==> (#[trigger] themes@[i]).name@ == theme@[i].name@
                    && themes@[i].path_word@ == theme@[i].path_word@,
    {
        copy_themes(&theme)
    }
}

impl LastChapter {
    /// The newest chapter that the upstream named.
    pub fn from(last_chapter: LastChapterRespData) -> (chapter: LastChapter)
        ensures
            chapter.uuid == last_chapter.uuid,
            chapter.name == last_chapter.name,
    {
        LastChapter { uuid: last_chapter.uuid, name: last_chapter.name }
    }
}

impl Group {
    /// The groups that the upstream listed, each under the word it was
    /// listed under and in the order given.
    pub fn from(group: Vec<(String, GroupRespData)>) -> (groups: Vec<(String, Group)>)
        ensures
            are_groups(group@, groups@),
    {
        groups_of(&group)
    }
}

/// Whether `groups` are the groups that the upstream listed as `listed`, each
/// under the word it was listed under and in the order given.
pub open spec fn are_groups(listed: Seq<(String, GroupRespData)>, groups: Seq<(String, Group)>) -> bool {
    groups.len() == listed.len() && forall|i: int|
        0 <= i < listed.len() ==> {
            let g = #[trigger] groups[i];
            &&& g.0@ == listed[i].0@
            &&& g.1.path_word@ == listed[i].1.path_word@
            &&& g.1.count == listed[i].1.count
            &&& g.1.name@ == listed[i].1.name@
        }
}

/// The groups that the upstream listed.
fn groups_of(group: &Vec<(String, GroupRespData)>) -> (groups: Vec<(String, Group)>)
    ensures
        are_groups(group@, groups@),
{
    let mut groups: Vec<(String, Group)> = Vec::new();
    let mut i: usize = 0;
    while i < group.len()
        invariant
            i <= group@.len(),
            groups@.len() == i,
            forall|k: int|
                0 <= k < i ==> {
                    let g = #[trigger] groups@[k];
                    &&& g.0@ == group@[k].0@
                    &&& g.1.path_word@ == group@[k].1.path_word@
                    &&& g.1.count == group@[k].1.count
                    &&& g.1.name@ == group@[k].1.name@
                },
        decreases group@.len() - i,
    {
        let g = &group[i];
        groups.push(
            (
                g.0.clone(),
                Group { path_word: g.1.path_word.clone(), count: g.1.count, name: g.1.name.clone() },
            ),
        );
        i = i + 1;
    }
    groups
}

/// The values that a comic's directory template may use.
pub open spec fn comic_vars(comic: Comic) -> Seq<(Seq<char>, Seq<char>)> {
    seq![
        ("comic_uuid"@, comic.comic.uuid@),
        ("comic_path_word"@, comic.comic.path_word@),
        ("comic_title"@, comic.comic.name@),
        ("author"@, author_names(comic.comic.author@)),
    ]
}

/// The values that the directory template of the chapter `chapter` may use.
pub open spec fn chapter_vars(comic: Comic, chapter: ChapterInfoView) -> Seq<
    (Seq<char>, Seq<char>),
> {
    seq![
        ("comic_uuid"@, comic.comic.uuid@),
        ("comic_path_word"@, comic.comic.path_word@),
        ("comic_title"@, comic.comic.name@),
        ("author"@, author_names(comic.comic.author@)),
        ("group_path_word"@, chapter.group_path_word),
        ("group_title"@, chapter.group_name),
        ("chapter_uuid"@, chapter.chapter_uuid),
        ("chapter_title"@, chapter.chapter_title),
        ("order"@, chapter.order),
    ]
}

/// The directory of the comic under the settings `config`.
pub open spec fn resolved_comic_dir(comic: Comic, config: Config) -> Option<DirPathView> {
    named_dir(
        DirPathView { root: config.download_dir@, names: Seq::empty() },
        config.comic_dir_fmt@,
        comic_vars(comic),
    )
}

/// The directory below which a chapter's own directories are named: the
/// comic's, or, where chapters are kept apart by kind and the chapter's kind
/// has a directory, that directory in the one of the chapter's group.
pub open spec fn chapter_base(comic_dir: DirPathView, separate: bool, chapter: ChapterInfoView) -> DirPathView {
    if separate && type_dir(chapter.chapter_type).len() > 0 {
        DirPathView {
            root: comic_dir.root,
            names: comic_dir.names.push(chapter.group_name).push(type_dir(chapter.chapter_type)),
        }
    } else {
        comic_dir
    }
}

/// The directory of the chapter `chapter` of the comic in `comic_dir`, under
/// the settings `config`.
pub open spec fn resolved_chapter_dir(
    comic: Comic,
    config: Config,
    comic_dir: DirPathView,
    chapter: ChapterInfoView,
) -> Option<DirPathView> {
    chapter_dir(
        config.chapter_dir_fmt@,
        chapter_base(comic_dir, config.separate_chapter_type, chapter),
        chapter_vars(comic, chapter),
        if config.separate_chapter_type {
            fmt_without_group(config.chapter_dir_fmt@)
        } else {
            None
        },
    )
}

/// Whether `after` is the chapter `before` with its directory resolved.
pub open spec fn is_resolved(
    comic: Comic,
    config: Config,
    comic_dir: DirPathView,
    before: ChapterInfoView,
    after: ChapterInfoView,
) -> bool {
    let dir = resolved_chapter_dir(comic, config, comic_dir, before);
    dir is Some && after == (ChapterInfoView { chapter_download_dir: dir, ..before })
}

/// Whether the chapters `after` are the chapters `before`, each with its
/// directory resolved.
pub open spec fn are_resolved(
    comic: Comic,
    config: Config,
    comic_dir: DirPathView,
    before: Seq<ChapterInfo>,
    after: Seq<ChapterInfo>,
) -> bool {
    after.len() == before.len() && forall|i: int|
        0 <= i < before.len() ==> is_resolved(comic, config, comic_dir, before[i]@, #[trigger] after[i]@)
}

/// Whether `after` is the comic `before` with the directory of the comic and
/// of each chapter resolved under the settings `config`, and nothing else
/// changed.
pub open spec fn is_comic_resolved(before: Comic, after: Comic, config: Config) -> bool {
    &&& dir_of(after.comic_download_dir) == resolved_comic_dir(before, config)
    &&& after.comic_download_dir is Some
    &&& after.comic.groups@.len() == before.comic.groups@.len()
    &&& forall|g: int|
        0 <= g < before.comic.groups@.len() ==> {
            let group = #[trigger] after.comic.groups@[g];
            &&& group.group_path_word@ == before.comic.groups@[g].group_path_word@
            &&& are_resolved(
                before,
                config,
                after.comic_download_dir->0@,
                before.comic.groups@[g].chapters@,
                group.chapters@,
            )
        }
    &&& after == (Comic {
        comic_download_dir: after.comic_download_dir,
        comic: ComicDetail { groups: after.comic.groups, ..before.comic },
        ..before
    })
}

/// Whether the directories of the comic can all be named under the settings
/// `config`.
pub open spec fn can_resolve(comic: Comic, config: Config) -> bool {
    match resolved_comic_dir(comic, config) {
        None => false,
        Some(comic_dir) => !some_chapter_unnamed(comic, config, comic_dir),
    }
}

/// Whether some chapter of the comic has a directory that cannot be named.
pub open spec fn some_chapter_unnamed(comic: Comic, config: Config, comic_dir: DirPathView) -> bool {
    exists|g: int, c: int|
        0 <= g < comic.comic.groups@.len() && 0 <= c < comic.comic.groups@[g].chapters@.len()
            && resolved_chapter_dir(
            comic,
            config,
            comic_dir,
            (#[trigger] comic.comic.groups@[g].chapters@[c])@,
        ) is None
}

impl Comic {
    /// The directory of a comic: below `download_dir`, the directories that the
    /// template `comic_dir_fmt` names with the comic's values.
    pub fn get_comic_download_dir_by_fmt(
        download_dir: &str,
        comic_dir_fmt: &str,
        fmt_params: &ComicDirFmtParams,
    ) -> (res: Result<DirPath, NamingError>)
        ensures
            match res {
                Ok(dir) => named_dir(
                    DirPathView { root: download_dir@, names: Seq::empty() },
                    comic_dir_fmt@,
                    fmt_params.var_seq(),
                ) == Some(dir@),
                Err(_) => named_dir(
                    DirPathView { root: download_dir@, names: Seq::empty() },
                    comic_dir_fmt@,
                    fmt_params.var_seq(),
                ) is None,
            },
    {
        let vars = fmt_params.vars();
        match format_dir_names(comic_dir_fmt, &vars) {
            Ok(names) => {
                let base = DirPath::new(download_dir.to_owned());
                let dir = join_all(base, names);
                assert(dir@.names =~= Seq::<Seq<char>>::empty() + names@.map_values(|n: String| n@));
                Ok(dir)
            },
            Err(e) => Err(e),
        }
    }

    /// Resolves the directory of the comic and of each of its chapters from
    /// the templates in the settings.
    ///
    /// The comic's directory lies below the download directory. A chapter's
    /// directory lies below the comic's; where chapters are kept apart by
    /// kind, it lies below a directory of its kind in the directory of its
    /// group, and a part of the template that names the group again is not
    /// used. The call fails if any directory cannot be named, and then
    /// changes nothing.
    pub fn update_download_dir_fields_by_fmt(&mut self, config: &Config) -> (res: Result<
        (),
        NamingError,
    >)
        ensures
            match res {
                Ok(()) => is_comic_resolved(*old(self), *final(self), *config),
                Err(_) => *final(self) == *old(self),
            },
            res is Ok <==> can_resolve(*old(self), *config),
    {
        let author = join_author_names(&self.comic.author);
        let comic_dir_fmt_params = ComicDirFmtParams {
            comic_uuid: self.comic.uuid.clone(),
            comic_path_word: self.comic.path_word.clone(),
            comic_title: self.comic.name.clone(),
            author: author.clone(),
        };
        assert(comic_dir_fmt_params.var_seq() =~= comic_vars(*self));
        let comic_download_dir = match Comic::get_comic_download_dir_by_fmt(
            config.download_dir.as_str(),
            config.comic_dir_fmt.as_str(),
            &comic_dir_fmt_params,
        ) {
            Ok(dir) => dir,
            Err(e) => {
                return Err(e);
            },
        };
        let fmt_override = if config.separate_chapter_type {
            chapter_fmt_override(config.chapter_dir_fmt.as_str())
        } else {
            None
        };
        let ghost comic = *self;
        let ghost comic_dir = comic_download_dir@;
        let mut groups: Vec<GroupChapters> = Vec::new();
        let mut g: usize = 0;
        while g < self.comic.groups.len()
            invariant
                *self == comic,
                comic_dir == comic_download_dir@,
                author@ == author_names(comic.comic.author@),
                text_of(fmt_override) == (if config.separate_chapter_type {
                    fmt_without_group(config.chapter_dir_fmt@)
                } else {
                    None
                }),
                g <= comic.comic.groups@.len(),
                groups@.len() == g,
                forall|k: int|
                    0 <= k < g ==> {
                        let after = #[trigger] groups@[k];
                        &&& after.group_path_word@ == comic.comic.groups@[k].group_path_word@
                        &&& are_resolved(
                            comic,
                            *config,
                            comic_dir,
                            comic.comic.groups@[k].chapters@,
                            after.chapters@,
                        )
                    },
            decreases comic.comic.groups@.len() - g,
        {
            let group = &self.comic.groups[g];
            let mut chapters: Vec<ChapterInfo> = Vec::new();
            let mut c: usize = 0;
            while c < group.chapters.len()
                invariant
                    *self == comic,
                    comic_dir == comic_download_dir@,
                    author@ == author_names(comic.comic.author@),
                    text_of(fmt_override) == (if config.separate_chapter_type {
                        fmt_without_group(config.chapter_dir_fmt@)
                    } else {
                        None
                    }),
                    g < comic.comic.groups@.len(),
                    *group == comic.comic.groups@[g as int],
                    c <= group.chapters@.len(),
                    chapters@.len() == c,
                    forall|k: int|
                        0 <= k < c ==> is_resolved(
                            comic,
                            *config,
                            comic_dir,
                            group.chapters@[k]@,
                            #[trigger] chapters@[k]@,
                        ),
                decreases group.chapters@.len() - c,
            {
                let chapter_info = &group.chapters[c];
                let kind_dir = type_dir_name(chapter_info.chapter_type);
                let base = if config.separate_chapter_type && kind_dir.unicode_len() > 0 {
                    comic_download_dir.clone().join(chapter_info.group_name.clone()).join(
                        kind_dir.to_owned(),
                    )
                } else {
                    comic_download_dir.clone()
                };
                assert(base@ == chapter_base(
                    comic_dir,
                    config.separate_chapter_type,
                    chapter_info@,
                ));
                let chapter_dir_fmt_params = ChapterDirFmtParams {
                    comic_uuid: self.comic.uuid.clone(),
                    comic_path_word: self.comic.path_word.clone(),
                    comic_title: self.comic.name.clone(),
                    author: author.clone(),
                    group_path_word: chapter_info.group_path_word.clone(),
                    group_title: chapter_info.group_name.clone(),
                    chapter_uuid: chapter_info.chapter_uuid.clone(),
                    chapter_title: chapter_info.chapter_title.clone(),
                    order: chapter_info.order.clone(),
                };
                assert(chapter_dir_fmt_params.var_seq() =~= chapter_vars(comic, chapter_info@));
                let dir = match ChapterInfo::get_chapter_download_dir_by_fmt(
                    config.chapter_dir_fmt.as_str(),
                    &base,
                    &chapter_dir_fmt_params,
                    copy_text(&fmt_override),
                ) {
                    Ok(dir) => dir,
                    Err(e) => {
                        assert(resolved_chapter_dir(
                            comic,
                            *config,
                            comic_dir,
                            comic.comic.groups@[g as int].chapters@[c as int]@,
                        ) is None);
                        return Err(e);
                    },
                };
                chapters.push(chapter_info.clone().with_download_dir(dir));
                c = c + 1;
            }
            groups.push(
                GroupChapters { group_path_word: group.group_path_word.clone(), chapters },
            );
            g = g + 1;
        }
        proof {
            assert forall|g: int, c: int|
                0 <= g < comic.comic.groups@.len() && 0 <= c
                    < comic.comic.groups@[g].chapters@.len() implies resolved_chapter_dir(
                comic,
                *config,
                comic_dir,
                (#[trigger] comic.comic.groups@[g].chapters@[c])@,
            ) is Some by {
                let after = groups@[g];
                assert(is_resolved(
                    comic,
                    *config,
                    comic_dir,
                    comic.comic.groups@[g].chapters@[c]@,
                    after.chapters@[c]@,
                ));
            }
        }
        self.comic_download_dir = Some(comic_download_dir);
        self.comic.groups = groups;
        Ok(())
    }
}

/// Whether the entry at `i` is the first one for the group `group_path_word`.
pub open spec fn is_first_listing(
    groups_chapters: Seq<(String, Vec<ChapterInGetChaptersRespData>)>,
    group_path_word: Seq<char>,
    i: int,
) -> bool {
    &&& 0 <= i < groups_chapters.len()
    &&& groups_chapters[i].0@ == group_path_word
    &&& forall|j: int| 0 <= j < i ==> groups_chapters[j].0@ != group_path_word
}

/// The chapters that the upstream listed for the group `group_path_word`:
/// those of the first entry for it, and none where there is no entry.
pub open spec fn chapters_listed(
    groups_chapters: Seq<(String, Vec<ChapterInGetChaptersRespData>)>,
    group_path_word: Seq<char>,
) -> Seq<ChapterInGetChaptersRespData> {
    if exists|i: int| is_first_listing(groups_chapters, group_path_word, i) {
        groups_chapters[choose|i: int| is_first_listing(groups_chapters, group_path_word, i)].1@
    } else {
        Seq::empty()
    }
}

/// Whether a comic that the upstream describes with this status is still
/// being published.
pub open spec fn status_of(value: i64) -> ComicStatus {
    if value == 0 {
        ComicStatus::Ongoing
    } else {
        ComicStatus::Completed
    }
}

/// The chapter that the upstream listed as `chapter` in the group named
/// `group_name` under the word `group_path_word`, of the comic `comic`.
/// Nothing is known yet of a download.
pub open spec fn listed_chapter(
    comic: ComicDetailRespData,
    group_path_word: Seq<char>,
    group_name: Seq<char>,
    chapter: ChapterInGetChaptersRespData,
) -> ChapterInfoView {
    ChapterInfoView {
        chapter_uuid: chapter.uuid@,
        chapter_title: chapter.name@,
        chapter_size: chapter.size,
        comic_uuid: comic.uuid@,
        comic_title: comic.name@,
        comic_path_word: comic.path_word@,
        group_path_word,
        group_name,
        group_size: chapter.count,
        order: chapter.order@,
        comic_status: status_of(comic.status.value),
        chapter_type: chapter.type_field,
        is_downloaded: None,
        chapter_download_dir: None,
    }
}

/// Whether `chapters` are the chapters listed as `listed`, in order.
pub open spec fn are_listed(
    comic: ComicDetailRespData,
    group_path_word: Seq<char>,
    group_name: Seq<char>,
    listed: Seq<ChapterInGetChaptersRespData>,
    chapters: Seq<ChapterInfo>,
) -> bool {
    chapters.len() == listed.len() && forall|i: int|
        0 <= i < listed.len() ==> (#[trigger] chapters[i])@ == listed_chapter(
            comic,
            group_path_word,
            group_name,
            listed[i],
        )
}

/// Whether `value` is the labeled value that the upstream sent as `resp`.
pub open spec fn is_labeled(value: LabeledValue, resp: LabeledValueRespData) -> bool {
    value.value == resp.value && value.display@ == resp.display@
}

impl ComicDetail {
    /// Whether this is what the upstream told of the comic in `resp`, but for
    /// the chapters.
    pub open spec fn describes(self, resp: GetComicRespData) -> bool {
        let comic = resp.comic;
        &&& self.uuid@ == comic.uuid@
        &&& self.b_404 == comic.b_404
        &&& self.b_hidden == comic.b_hidden
        &&& self.ban == comic.ban
        &&& self.ban_ip == comic.ban_ip
        &&& self.name@ == comic.name@
        &&& text_of(self.alias) == text_of(comic.alias)
        &&& self.path_word@ == comic.path_word@
        &&& self.close_comment == comic.close_comment
        &&& self.close_roast == comic.close_roast
        &&& is_labeled(self.free_type, comic.free_type)
        &&& is_labeled(self.restrict, comic.restrict)
        &&& is_labeled(self.reclass, comic.reclass)
        &&& text_of(self.seo_baidu) == text_of(comic.seo_baidu)
        &&& is_labeled(self.region, comic.region)
        &&& is_labeled(self.status, comic.status)
        &&& self.author@.len() == comic.author@.len()
        &&& forall|i: int|
            0 <= i < comic.author@.len() ==> {
                let a = #[trigger] self.author@[i];
                &&& a.name@ == comic.author@[i].name@
                &&& text_of(a.alias) == text_of(comic.author@[i].alias)
                &&& a.path_word@ == comic.author@[i].path_word@
            }
        &&& self.theme@.len() == comic.theme@.len()
        &&& forall|i: int|
            0 <= i < comic.theme@.len() ==> (#[trigger] self.theme@[i]).name@
                == comic.theme@[i].name@ && self.theme@[i].path_word@
                == comic.theme@[i].path_word@
        &&& self.brief@ == comic.brief@
        &&& self.datetime_updated@ == comic.datetime_updated@
        &&& self.cover@ == comic.cover@
        &&& self.last_chapter.uuid@ == comic.last_chapter.uuid@
        &&& self.last_chapter.name@ == comic.last_chapter.name@
        &&& self.popular == resp.popular
    }

    /// Whether the chapters are those that the upstream listed for the groups
    /// of `resp`: a group for every group of the comic, in the order given,
    /// each with the chapters listed for it.
    pub open spec fn lists_chapters(
        self,
        resp: GetComicRespData,
        groups_chapters: Seq<(String, Vec<ChapterInGetChaptersRespData>)>,
    ) -> bool {
        &&& self.groups@.len() == resp.groups@.len()
        &&& forall|g: int|
            0 <= g < resp.groups@.len() ==> {
                let group = #[trigger] self.groups@[g];
                &&& group.group_path_word@ == resp.groups@[g].0@
                &&& are_listed(
                    resp.comic,
                    resp.groups@[g].0@,
                    resp.groups@[g].1.name@,
                    chapters_listed(groups_chapters, resp.groups@[g].0@),
                    group.chapters@,
                )
            }
    }

    /// What the upstream told of a comic, with the chapters it listed for
    /// each of the comic's groups. A group for which none were listed has
    /// none.
    pub fn from_resp_data(
        comic_resp_data: &GetComicRespData,
        groups_chapters: &Vec<(String, Vec<ChapterInGetChaptersRespData>)>,
    ) -> (detail: ComicDetail)
        ensures
            detail.describes(*comic_resp_data),
            detail.lists_chapters(*comic_resp_data, groups_chapters@),
    {
        let comic = &comic_resp_data.comic;
        let comic_status = if comic.status.value == 0 {
            ComicStatus::Ongoing
        } else {
            ComicStatus::Completed
        };
        let mut groups: Vec<GroupChapters> = Vec::new();
        let mut g: usize = 0;
        while g < comic_resp_data.groups.len()
            invariant
                g <= comic_resp_data.groups@.len(),
                *comic == comic_resp_data.comic,
                comic_status == status_of(comic.status.value),
                groups@.len() == g,
                forall|k: int|
                    0 <= k < g ==> {
                        let group = #[trigger] groups@[k];
                        &&& group.group_path_word@ == comic_resp_data.groups@[k].0@
                        &&& are_listed(
                            comic_resp_data.comic,
                            comic_resp_data.groups@[k].0@,
                            comic_resp_data.groups@[k].1.name@,
                            chapters_listed(groups_chapters@, comic_resp_data.groups@[k].0@),
                            group.chapters@,
                        )
                    },
            decreases comic_resp_data.groups@.len() - g,
        {
            let group_path_word = &comic_resp_data.groups[g].0;
            let group_resp_data = &comic_resp_data.groups[g].1;
            let mut chapter_infos: Vec<ChapterInfo> = Vec::new();
            match find_listing(groups_chapters, group_path_word) {
                None => {},
                Some(at) => {
                    let listed = &groups_chapters[at].1;
                    let mut c: usize = 0;
                    while c < listed.len()
                        invariant
                            c <= listed@.len(),
                            *comic == comic_resp_data.comic,
                            comic_status == status_of(comic.status.value),
                            chapter_infos@.len() == c,
                            forall|k: int|
                                0 <= k < c ==> (#[trigger] chapter_infos@[k])@ == listed_chapter(
                                    comic_resp_data.comic,
                                    group_path_word@,
                                    group_resp_data.name@,
                                    listed@[k],
                                ),
                        decreases listed@.len() - c,
                    {
                        let chapter = &listed[c];
                        chapter_infos.push(
                            ChapterInfo {
                                chapter_uuid: chapter.uuid.clone(),
                                chapter_title: chapter.name.clone(),
                                chapter_size: chapter.size,
                                comic_uuid: comic.uuid.clone(),
                                comic_title: comic.name.clone(),
                                comic_path_word: comic.path_word.clone(),
                                group_path_word: group_path_word.clone(),
                                group_name: group_resp_data.name.clone(),
                                group_size: chapter.count,
                                order: chapter.order.clone(),
                                comic_status,
                                chapter_type: chapter.type_field,
                                is_downloaded: None,
                                chapter_download_dir: None,
                            },
                        );
                        c = c + 1;
                    }
                },
            }
            groups.push(
                GroupChapters { group_path_word: group_path_word.clone(), chapters: chapter_infos },
            );
            g = g + 1;
        }
        ComicDetail {
            uuid: comic.uuid.clone(),
            b_404: comic.b_404,
            b_hidden: comic.b_hidden,
            ban: comic.ban,
            ban_ip: comic.ban_ip,
            name: comic.name.clone(),
            alias: copy_text(&comic.alias),
            path_word: comic.path_word.clone(),
            close_comment: comic.close_comment,
            close_roast: comic.close_roast,
            free_type: copy_labeled(&comic.free_type),
            restrict: copy_labeled(&comic.restrict),
            reclass: copy_labeled(&comic.reclass),
            seo_baidu: copy_text(&comic.seo_baidu),
            region: copy_labeled(&comic.region),
            status: copy_labeled(&comic.status),
            author: authors_of(&comic.author),
            theme: copy_themes(&comic.theme),
            brief: comic.brief.clone(),
            datetime_updated: comic.datetime_updated.clone(),
            cover: comic.cover.clone(),
            last_chapter: LastChapter {
                uuid: comic.last_chapter.uuid.clone(),
                name: comic.last_chapter.name.clone(),
            },
            popular: comic_resp_data.popular,
            groups,
        }
    }
}

/// Where the chapters listed for the group stand.
fn find_listing(
    groups_chapters: &Vec<(String, Vec<ChapterInGetChaptersRespData>)>,
    group_path_word: &String,
) -> (found: Option<usize>)
    ensures
        match found {
            Some(i) => i < groups_chapters@.len() && chapters_listed(
                groups_chapters@,
                group_path_word@,
            ) == groups_chapters@[i as int].1@,
            None => chapters_listed(groups_chapters@, group_path_word@) == Seq::<
                ChapterInGetChaptersRespData,
            >::empty(),
        },
{
    let mut i: usize = 0;
    while i < groups_chapters.len()
        invariant
            i <= groups_chapters@.len(),
            forall|j: int| 0 <= j < i ==> groups_chapters@[j].0@ != group_path_word@,
        decreases groups_chapters@.len() - i,
    {
        if groups_chapters[i].0 == *group_path_word {
            proof {
                assert(is_first_listing(groups_chapters@, group_path_word@, i as int));
                let c = choose|c: int| is_first_listing(groups_chapters@, group_path_word@, c);
                if c < i {
                    assert(groups_chapters@[c].0@ != group_path_word@);
                }
                if i < c {
                    assert(groups_chapters@[i as int].0@ != group_path_word@);
                }
            }
            return Some(i);
        }
        i = i + 1;
    }
    None
}

/// A copy of a labeled value that the upstream sent.
fn copy_labeled(resp: &LabeledValueRespData) -> (value: LabeledValue)
    ensures
        is_labeled(value, *resp),
{
    LabeledValue { value: resp.value, display: resp.display.clone() }
}

/// The themes that the upstream listed.
fn copy_themes(theme: &Vec<ThemeRespData>) -> (themes: Vec<Theme>)
    ensures
        themes@.len() == theme@.len(),
        forall|i: int|
            0 <= i < theme@.len() ==> (#[trigger] themes@[i]).name@ == theme@[i].name@
                && themes@[i].path_word@ == theme@[i].path_word@,
{
    let mut themes: Vec<Theme> = Vec::new();
    let mut i: usize = 0;
    while i < theme.len()
        invariant
            i <= theme@.len(),
            themes@.len() == i,
            forall|k: int|
                0 <= k < i ==> (#[trigger] themes@[k]).name@ == theme@[k].name@
                    && themes@[k].path_word@ == theme@[k].path_word@,
        decreases theme@.len() - i,
    {
        let t = &theme[i];
        themes.push(Theme { name: t.name.clone(), path_word: t.path_word.clone() });
        i = i + 1;
    }
    themes
}

impl Comic {
    /// The comic that the upstream described, with the chapters it listed
    /// for each group. Nothing is known yet of a download.
    pub fn from_resp_data(
        comic_resp_data: &GetComicRespData,
        groups_chapters: &Vec<(String, Vec<ChapterInGetChaptersRespData>)>,
    ) -> (comic: Comic)
        ensures
            comic.is_banned == comic_resp_data.is_banned,
            comic.is_lock == comic_resp_data.is_lock,
            comic.is_login == comic_resp_data.is_login,
            comic.is_mobile_bind == comic_resp_data.is_mobile_bind,
            comic.is_vip == comic_resp_data.is_vip,
            comic.popular == comic_resp_data.popular,
            comic.comic.describes(*comic_resp_data),
            comic.comic.lists_chapters(*comic_resp_data, groups_chapters@),
            are_groups(comic_resp_data.groups@, comic.groups@),
            comic.is_downloaded is None,
            comic.comic_download_dir is None,
    {
        Comic {
            is_banned: comic_resp_data.is_banned,
            is_lock: comic_resp_data.is_lock,
            is_login: comic_resp_data.is_login,
            is_mobile_bind: comic_resp_data.is_mobile_bind,
            is_vip: comic_resp_data.is_vip,
            comic: ComicDetail::from_resp_data(comic_resp_data, groups_chapters),
            popular: comic_resp_data.popular,
            groups: groups_of(&comic_resp_data.groups),
            is_downloaded: None,
            comic_download_dir: None,
        }
    }
}

/// A chapter found on disk by its metadata file.
#[derive(Default, Debug, Clone, PartialEq, Eq)]
pub struct ChapterOnDisk {
    pub chapter_uuid: String,
    pub group_path_word: String,
    /// The directory that holds the metadata file.
    pub dir: String,
}

/// Whether the group at `g` is the first one named `group_path_word`.
pub open spec fn is_first_group(groups: Seq<GroupChapters>, group_path_word: Seq<char>, g: int) -> bool {
    &&& 0 <= g < groups.len()
    &&& groups[g].group_path_word@ == group_path_word
    &&& forall|h: int| 0 <= h < g ==> groups[h].group_path_word@ != group_path_word
}

/// Whether the chapter at `c` is the first one with the identifier
/// `chapter_uuid`.
pub open spec fn is_first_chapter(chapters: Seq<ChapterInfo>, chapter_uuid: Seq<char>, c: int) -> bool {
    &&& 0 <= c < chapters.len()
    &&& chapters[c].chapter_uuid@ == chapter_uuid
    &&& forall|d: int| 0 <= d < c ==> chapters[d].chapter_uuid@ != chapter_uuid
}

/// Whether the chapter at `c` of the group at `g` is the one that `found`
/// was found for: the first chapter of its identifier in the first group of
/// its group's name.
pub open spec fn is_found_at(groups: Seq<GroupChapters>, found: ChapterOnDisk, g: int, c: int) -> bool {
    is_first_group(groups, found.group_path_word@, g) && is_first_chapter(
        groups[g].chapters@,
        found.chapter_uuid@,
        c,
    )
}

/// The chapter `chapter` marked as downloaded into `dir`.
pub open spec fn marked_chapter(chapter: ChapterInfoView, dir: Seq<char>) -> ChapterInfoView {
    ChapterInfoView {
        chapter_download_dir: Some(DirPathView { root: dir, names: Seq::empty() }),
        is_downloaded: Some(true),
        ..chapter
    }
}

/// Whether the groups `after` are the groups `before` with the chapter that
/// `found` was found for marked as downloaded, and every other chapter as it
/// was. A chapter found on disk that the comic does not list marks nothing.
pub open spec fn is_marked(before: Seq<GroupChapters>, after: Seq<GroupChapters>, found: ChapterOnDisk) -> bool {
    &&& after.len() == before.len()
    &&& forall|g: int|
        0 <= g < before.len() ==> {
            let group = #[trigger] after[g];
            &&& group.group_path_word@ == before[g].group_path_word@
            &&& group.chapters@.len() == before[g].chapters@.len()
            &&& forall|c: int|
                0 <= c < before[g].chapters@.len() ==> (#[trigger] group.chapters@[c])@ == if is_found_at(
                    before,
                    found,
                    g,
                    c,
                ) {
                    marked_chapter(before[g].chapters@[c]@, found.dir@)
                } else {
                    before[g].chapters@[c]@
                }
        }
}

impl Comic {
    /// Marks the chapter that `found` was found for as downloaded, with the
    /// directory it was found in as its own.
    ///
    /// The chapter is looked for in the group that `found` names, by its
    /// identifier. Where the comic has no such group, or the group no such
    /// chapter, nothing changes.
    pub fn mark_downloaded(&mut self, found: &ChapterOnDisk)
        ensures
            is_marked(old(self).comic.groups@, final(self).comic.groups@, *found),
            *final(self) == (Comic {
                comic: ComicDetail { groups: final(self).comic.groups, ..old(self).comic },
                ..*old(self)
            }),
    {
        let ghost before = self.comic.groups@;
        match find_on_disk(&self.comic.groups, found) {
            None => {
                proof {
                    lemma_mark_nothing(before, *found);
                }
            },
            Some((g, c)) => {
                let mut group = self.comic.groups.remove(g);
                let ghost chapters_before = group.chapters@;
                let mut chapter = group.chapters.remove(c);
                chapter.chapter_download_dir = Some(DirPath::new(found.dir.clone()));
                chapter.is_downloaded = Some(true);
                group.chapters.insert(c, chapter);
                assert(group.chapters@ =~= chapters_before.update(c as int, chapter));
                self.comic.groups.insert(g, group);
                proof {
                    assert(self.comic.groups@ =~= before.update(g as int, group));
                    lemma_mark(before, self.comic.groups@, *found, g as int, c as int);
                }
            },
        }
    }
}

/// Where the chapter stands that `found` was found for.
fn find_on_disk(groups: &Vec<GroupChapters>, found: &ChapterOnDisk) -> (place: Option<(usize, usize)>)
    ensures
        match place {
            Some((g, c)) => is_found_at(groups@, *found, g as int, c as int),
            None => forall|g: int, c: int| !is_found_at(groups@, *found, g, c),
        },
{
    let mut g: usize = 0;
    while g < groups.len()
        invariant
            g <= groups@.len(),
            forall|h: int| 0 <= h < g ==> groups@[h].group_path_word@ != found.group_path_word@,
        decreases groups@.len() - g,
    {
        if groups[g].group_path_word == found.group_path_word {
            assert(is_first_group(groups@, found.group_path_word@, g as int));
            let chapters = &groups[g].chapters;
            let mut c: usize = 0;
            while c < chapters.len()
                invariant
                    c <= chapters@.len(),
                    g < groups@.len(),
                    *chapters == groups@[g as int].chapters,
                    is_first_group(groups@, found.group_path_word@, g as int),
                    forall|d: int| 0 <= d < c ==> chapters@[d].chapter_uuid@ != found.chapter_uuid@,
                decreases chapters@.len() - c,
            {
                if chapters[c].chapter_uuid == found.chapter_uuid {
                    return Some((g, c));
                }
                c = c + 1;
            }
            proof {
                assert forall|h: int, d: int| !is_found_at(groups@, *found, h, d) by {
                    if is_first_group(groups@, found.group_path_word@, h) {
                        if h < g {
                            assert(groups@[h].group_path_word@ != found.group_path_word@);
                        }
                        if g < h {
                            assert(groups@[g as int].group_path_word@ != found.group_path_word@);
                        }
                        if 0 <= d < chapters@.len() {
                            assert(chapters@[d].chapter_uuid@ != found.chapter_uuid@);
                        }
                    }
                }
            }
            return None;
        }
        g = g + 1;
    }
    proof {
        assert forall|h: int, c: int| !is_found_at(groups@, *found, h, c) by {
            if 0 <= h < groups@.len() {
                assert(groups@[h].group_path_word@ != found.group_path_word@);
            }
        }
    }
    None
}

/// A chapter found on disk is found for one chapter of the comic at most.
proof fn lemma_found_once(groups: Seq<GroupChapters>, found: ChapterOnDisk, g: int, c: int, h: int, d: int)
    requires
        is_found_at(groups, found, g, c),
        is_found_at(groups, found, h, d),
    ensures
        g == h,
        c == d,
{
    if h < g {
        assert(groups[h].group_path_word@ != found.group_path_word@);
    }
    if g < h {
        assert(groups[g].group_path_word@ != found.group_path_word@);
    }
    if d < c {
        assert(groups[g].chapters@[d].chapter_uuid@ != found.chapter_uuid@);
    }
    if c < d {
        assert(groups[g].chapters@[c].chapter_uuid@ != found.chapter_uuid@);
    }
}

/// Groups that differ from others in one chapter only, the one that `found`
/// was found for, and there as marking asks, are those others marked.
proof fn lemma_mark(before: Seq<GroupChapters>, after: Seq<GroupChapters>, found: ChapterOnDisk, g: int, c: int)
    requires
        is_found_at(before, found, g, c),
        after.len() == before.len(),
        forall|h: int| 0 <= h < before.len() && h != g ==> after[h] == before[h],
        after[g].group_path_word@ == before[g].group_path_word@,
        after[g].chapters@.len() == before[g].chapters@.len(),
        forall|d: int|
            0 <= d < before[g].chapters@.len() && d != c ==> after[g].chapters@[d]
                == before[g].chapters@[d],
        after[g].chapters@[c]@ == marked_chapter(before[g].chapters@[c]@, found.dir@),
    ensures
        is_marked(before, after, found),
{
    assert forall|h: int| 0 <= h < before.len() implies {
        let group = #[trigger] after[h];
        &&& group.group_path_word@ == before[h].group_path_word@
        &&& group.chapters@.len() == before[h].chapters@.len()
        &&& forall|d: int|
            0 <= d < before[h].chapters@.len() ==> (#[trigger] group.chapters@[d])@ == if is_found_at(
                before,
                found,
                h,
                d,
            ) {
                marked_chapter(before[h].chapters@[d]@, found.dir@)
            } else {
                before[h].chapters@[d]@
            }
    } by {
        let group = after[h];
        assert forall|d: int| 0 <= d < before[h].chapters@.len() implies (
        #[trigger] group.chapters@[d])@ == if is_found_at(before, found, h, d) {
            marked_chapter(before[h].chapters@[d]@, found.dir@)
        } else {
            before[h].chapters@[d]@
        } by {
            if is_found_at(before, found, h, d) {
                lemma_found_once(before, found, g, c, h, d);
            } else if h == g {
                assert(d != c);
            }
        }
    }
}

/// Where no chapter of the comic is the one that `found` was found for,
/// groups left as they are count as marked.
proof fn lemma_mark_nothing(groups: Seq<GroupChapters>, found: ChapterOnDisk)
    requires
        forall|g: int, c: int| !is_found_at(groups, found, g, c),
    ensures
        is_marked(groups, groups, found),
{
}

/// Whether `after` holds the chapters `before` with nothing said of whether
/// they were downloaded.
pub open spec fn are_unmarked(before: Seq<ChapterInfo>, after: Seq<ChapterInfo>) -> bool {
    after.len() == before.len() && forall|i: int|
        0 <= i < before.len() ==> (#[trigger] after[i])@ == (ChapterInfoView {
            is_downloaded: None,
            ..before[i]@
        })
}

impl Comic {
    /// The comic as its metadata file records it: without a word on whether
    /// the comic or any chapter was downloaded, which a reader of the file
    /// finds out anew.
    pub fn into_metadata_form(self) -> (record: Comic)
        ensures
            record == (Comic {
                is_downloaded: None,
                comic: ComicDetail { groups: record.comic.groups, ..self.comic },
                ..self
            }),
            record.comic.groups@.len() == self.comic.groups@.len(),
            forall|g: int|
                0 <= g < self.comic.groups@.len() ==> {
                    let group = #[trigger] record.comic.groups@[g];
                    &&& group.group_path_word@ == self.comic.groups@[g].group_path_word@
                    &&& are_unmarked(self.comic.groups@[g].chapters@, group.chapters@)
                },
    {
        let mut record = self;
        let mut groups: Vec<GroupChapters> = Vec::new();
        let mut g: usize = 0;
        while g < record.comic.groups.len()
            invariant
                record == self,
                g <= self.comic.groups@.len(),
                groups@.len() == g,
                forall|k: int|
                    0 <= k < g ==> {
                        let group = #[trigger] groups@[k];
                        &&& group.group_path_word@ == self.comic.groups@[k].group_path_word@
                        &&& are_unmarked(self.comic.groups@[k].chapters@, group.chapters@)
                    },
            decreases self.comic.groups@.len() - g,
        {
            let group = &record.comic.groups[g];
            let mut chapters: Vec<ChapterInfo> = Vec::new();
            let mut c: usize = 0;
            while c < group.chapters.len()
                invariant
                    c <= group.chapters@.len(),
                    chapters@.len() == c,
                    forall|k: int|
                        0 <= k < c ==> (#[trigger] chapters@[k])@ == (ChapterInfoView {
                            is_downloaded: None,
                            ..group.chapters@[k]@
                        }),
                decreases group.chapters@.len() - c,
            {
                let mut chapter = group.chapters[c].clone();
                chapter.is_downloaded = None;
                chapters.push(chapter);
                c = c + 1;
            }
            groups.push(
                GroupChapters { group_path_word: group.group_path_word.clone(), chapters },
            );
            g = g + 1;
        }
        record.is_downloaded = None;
        record.comic.groups = groups;
        record
    }

    /// Records that the comic lies in `comic_download_dir`.
    pub fn set_downloaded(&mut self, comic_download_dir: DirPath)
        ensures
            *final(self) == (Comic {
                comic_download_dir: Some(comic_download_dir),
                is_downloaded: Some(true),
                ..*old(self)
            }),
    {
        self.comic_download_dir = Some(comic_download_dir);
        self.is_downloaded = Some(true);
    }
}

/// The names of the authors, with a comma and a space between them.
pub fn join_author_names(authors: &Vec<Author>) -> (names: String)
    ensures
        names@ == author_names(authors@),
{
    let mut names = String::new();
    let mut i: usize = 0;
    while i < authors.len()
        invariant
            i <= authors@.len(),
            names@ == author_names(authors@.subrange(0, i as int)),
        decreases authors@.len() - i,
    {
        proof {
            assert(authors@.subrange(0, i + 1).drop_last() =~= authors@.subrange(0, i as int));
            assert(authors@.subrange(0, i + 1).last() == authors@[i as int]);
        }
        if i > 0 {
            names.push(',');
            names.push(' ');
            assert(names@ =~= author_names(authors@.subrange(0, i as int)) + seq![',', ' ']);
        } else {
            assert(authors@.subrange(0, 1)[0] == authors@[0]);
        }
        names.append(authors[i].name.as_str());
        i = i + 1;
    }
    assert(authors@.subrange(0, authors@.len() as int) =~= authors@);
    names
}

} // verus!
