//! The results of a search, each with where it lies on disk if it was
//! downloaded.

use vstd::prelude::*;
use crate::dir_map::PathWordDirs;
use crate::get_favorite_result::download_dir_of;
use crate::responses::{
    author_views,
    copy_authors,
    copy_text,
    text_of,
    AuthorRespData,
    ComicInSearchRespData,
    Pagination,
};

verus! {

/// One page of search results.
#[derive(Default, Debug, Clone, PartialEq, Eq)]
pub struct SearchResult(pub Pagination<ComicInSearch>);

/// A comic among the results of a search.
#[derive(Default, Debug, Clone, PartialEq, Eq)]
pub struct ComicInSearch {
    pub name: String,
    pub alias: Option<String>,
    pub path_word: String,
    pub cover: String,
    pub ban: i64,
    pub author: Vec<AuthorRespData>,
    pub popular: i64,
    pub is_downloaded: bool,
    /// The directory of the comic, empty while it is not downloaded.
    pub comic_download_dir: String,
}

impl ComicInSearch {
    /// Whether this is the comic that the upstream listed as `resp`, with
    /// nothing known of a download.
    pub open spec fn lists(self, resp: ComicInSearchRespData) -> bool {
        &&& self.name@ == resp.name@
        &&& text_of(self.alias) == text_of(resp.alias)
        &&& self.path_word@ == resp.path_word@
        &&& self.cover@ == resp.cover@
        &&& self.ban == resp.ban
        &&& author_views(self.author@) == author_views(resp.author@)
        &&& self.popular == resp.popular
    }

    /// Whether the two fields on the download say what `map` holds for this
    /// comic, given what they said before.
    pub open spec fn located(self, map: PathWordDirs, was_downloaded: bool, dir_before: Seq<char>) -> bool {
        match download_dir_of(map, self.path_word@) {
            Some(dir) => self.is_downloaded && self.comic_download_dir@ == dir,
            None => self.is_downloaded == was_downloaded && self.comic_download_dir@ == dir_before,
        }
    }

    /// The comic that the upstream listed as `resp_data`, marked as downloaded
    /// if `path_word_to_dir_map` holds a directory for it.
    pub fn from_resp_data(resp_data: &ComicInSearchRespData, path_word_to_dir_map: &PathWordDirs) -> (comic:
        ComicInSearch)
        ensures
            comic.lists(*resp_data),
            comic.located(*path_word_to_dir_map, false, Seq::empty()),
    {
        let mut comic = ComicInSearch {
            name: resp_data.name.clone(),
            alias: copy_text(&resp_data.alias),
            path_word: resp_data.path_word.clone(),
            cover: resp_data.cover.clone(),
            ban: resp_data.ban,
            author: copy_authors(&resp_data.author),
            popular: resp_data.popular,
            is_downloaded: false,
            comic_download_dir: String::new(),
        };
        comic.update_fields(path_word_to_dir_map);
        comic
    }

    /// Marks the comic as downloaded if `path_word_to_dir_map` holds a
    /// directory for it, and takes the first such directory as its own. A comic
    /// without one is left as it is.
    pub fn update_fields(&mut self, path_word_to_dir_map: &PathWordDirs)
        ensures
            final(self).located(
                *path_word_to_dir_map,
                old(self).is_downloaded,
                old(self).comic_download_dir@,
            ),
            *final(self) == (ComicInSearch {
                is_downloaded: final(self).is_downloaded,
                comic_download_dir: final(self).comic_download_dir,
                ..*old(self)
            }),
    {
        if let Some(comic_download_dirs) = path_word_to_dir_map.get(&self.path_word) {
            if comic_download_dirs.len() > 0 {
                self.comic_download_dir = comic_download_dirs[0].clone();
                self.is_downloaded = true;
            }
        }
    }
}

impl SearchResult {
    /// The page of results that the upstream sent as `resp_data`, each comic
    /// marked as downloaded if `path_word_to_dir_map` holds a directory for it.
    pub fn from_resp_data(
        resp_data: &Pagination<ComicInSearchRespData>,
        path_word_to_dir_map: &PathWordDirs,
    ) -> (result: SearchResult)
        ensures
            result.0.total == resp_data.total,
            result.0.limit == resp_data.limit,
            result.0.offset == resp_data.offset,
            result.0.list@.len() == resp_data.list@.len(),
            forall|i: int|
                0 <= i < resp_data.list@.len() ==> {
                    let comic = #[trigger] result.0.list@[i];
                    &&& comic.lists(resp_data.list@[i])
                    &&& comic.located(*path_word_to_dir_map, false, Seq::empty())
                },
    {
        let mut list: Vec<ComicInSearch> = Vec::new();
        let mut i: usize = 0;
        while i < resp_data.list.len()
            invariant
                i <= resp_data.list@.len(),
                list@.len() == i,
                forall|k: int|
                    0 <= k < i ==> {
                        let comic = #[trigger] list@[k];
                        &&& comic.lists(resp_data.list@[k])
                        &&& comic.located(*path_word_to_dir_map, false, Seq::empty())
                    },
            decreases resp_data.list@.len() - i,
        {
            let comic = ComicInSearch::from_resp_data(&resp_data.list[i], path_word_to_dir_map);
            list.push(comic);
            i = i + 1;
        }
        SearchResult(
            Pagination {
                list,
                total: resp_data.total,
                limit: resp_data.limit,
                offset: resp_data.offset,
            },
        )
    }
}

} // verus!
