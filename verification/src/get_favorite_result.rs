//! The favorites of an account, each with where it lies on disk if it was
//! downloaded.

use vstd::prelude::*;
use crate::dir_map::PathWordDirs;
use crate::responses::{
    author_views,
    copy_authors,
    AuthorRespData,
    ComicInGetFavoriteRespData,
    FavoriteItemRespData,
    Pagination,
};

verus! {

/// One page of the favorites.
#[derive(Default, Debug, Clone, PartialEq, Eq)]
pub struct GetFavoriteResult(pub Pagination<FavoriteItem>);

/// One favorite.
#[derive(Default, Debug, Clone, PartialEq, Eq)]
pub struct FavoriteItem {
    pub uuid: i64,
    pub b_folder: bool,
    pub comic: ComicInFavorite,
}

/// A comic among the favorites.
#[derive(Default, Debug, Clone, PartialEq, Eq)]
pub struct ComicInFavorite {
    pub uuid: String,
    pub b_display: bool,
    pub name: String,
    pub path_word: String,
    pub author: Vec<AuthorRespData>,
    pub cover: String,
    pub status: i64,
    pub popular: i64,
    pub datetime_updated: String,
    pub last_chapter_id: String,
    pub last_chapter_name: String,
    pub is_downloaded: bool,
    /// The directory of the comic, empty while it is not downloaded.
    pub comic_download_dir: String,
}

/// The directory that counts for the comic `path_word`: the first one that
/// was found for it.
pub open spec fn download_dir_of(map: PathWordDirs, path_word: Seq<char>) -> Option<Seq<char>> {
    match map.dirs(path_word) {
        Some(dirs) => if dirs.len() > 0 {
            Some(dirs[0])
        } else {
            None
        },
        None => None,
    }
}

impl ComicInFavorite {
    /// Whether this is the comic that the upstream listed as `resp`, with
    /// nothing known of a download.
    pub open spec fn lists(self, resp: ComicInGetFavoriteRespData) -> bool {
        &&& self.uuid@ == resp.uuid@
        &&& self.b_display == resp.b_display
        &&& self.name@ == resp.name@
        &&& self.path_word@ == resp.path_word@
        &&& author_views(self.author@) == author_views(resp.author@)
        &&& self.cover@ == resp.cover@
        &&& self.status == resp.status
        &&& self.popular == resp.popular
        &&& self.datetime_updated@ == resp.datetime_updated@
        &&& self.last_chapter_id@ == resp.last_chapter_id@
        &&& self.last_chapter_name@ == resp.last_chapter_name@
    }

    /// Whether the two fields on the download say what `map` holds for this
    /// comic, given what they said before.
    pub open spec fn located(self, map: PathWordDirs, was_downloaded: bool, dir_before: Seq<char>) -> bool {
        match download_dir_of(map, self.path_word@) {
            Some(dir) => self.is_downloaded && self.comic_download_dir@ == dir,
            None => self.is_downloaded == was_downloaded && self.comic_download_dir@ == dir_before,
        }
    }

    /// The comic that the upstream listed as `resp_data`, marked as downloaded
    /// if `path_word_to_dir_map` holds a directory for it.
    pub fn from_resp_data(
        resp_data: &ComicInGetFavoriteRespData,
        path_word_to_dir_map: &PathWordDirs,
    ) -> (comic: ComicInFavorite)
        ensures
            comic.lists(*resp_data),
            comic.located(*path_word_to_dir_map, false, Seq::empty()),
    {
        let mut comic = ComicInFavorite {
            uuid: resp_data.uuid.clone(),
            b_display: resp_data.b_display,
            name: resp_data.name.clone(),
            path_word: resp_data.path_word.clone(),
            author: copy_authors(&resp_data.author),
            cover: resp_data.cover.clone(),
            status: resp_data.status,
            popular: resp_data.popular,
            datetime_updated: resp_data.datetime_updated.clone(),
            last_chapter_id: resp_data.last_chapter_id.clone(),
            last_chapter_name: resp_data.last_chapter_name.clone(),
            is_downloaded: false,
            comic_download_dir: String::new(),
        };
        comic.update_fields(path_word_to_dir_map);
        comic
    }

    /// Marks the comic as downloaded if `path_word_to_dir_map` holds a
    /// directory for it, and takes the first such directory as its own. A comic
    /// without one is left as it is.
    pub fn update_fields(&mut self, path_word_to_dir_map: &PathWordDirs)
        ensures
            final(self).located(
                *path_word_to_dir_map,
                old(self).is_downloaded,
                old(self).comic_download_dir@,
            ),
            *final(self) == (ComicInFavorite {
                is_downloaded: final(self).is_downloaded,
                comic_download_dir: final(self).comic_download_dir,
                ..*old(self)
            }),
    {
        if let Some(comic_download_dirs) = path_word_to_dir_map.get(&self.path_word) {
            if comic_download_dirs.len() > 0 {
                self.comic_download_dir = comic_download_dirs[0].clone();
                self.is_downloaded = true;
            }
        }
    }
}

impl GetFavoriteResult {
    /// The page of favorites that the upstream sent as `resp_data`, each comic
    /// marked as downloaded if `path_word_to_dir_map` holds a directory for it.
    pub fn from_resp_data(
        resp_data: &Pagination<FavoriteItemRespData>,
        path_word_to_dir_map: &PathWordDirs,
    ) -> (result: GetFavoriteResult)
        ensures
            result.0.total == resp_data.total,
            result.0.limit == resp_data.limit,
            result.0.offset == resp_data.offset,
            result.0.list@.len() == resp_data.list@.len(),
            forall|i: int|
                0 <= i < resp_data.list@.len() ==> {
                    let item = #[trigger] result.0.list@[i];
                    &&& item.uuid == resp_data.list@[i].uuid
                    &&& item.b_folder == resp_data.list@[i].b_folder
                    &&& item.comic.lists(resp_data.list@[i].comic)
                    &&& item.comic.located(*path_word_to_dir_map, false, Seq::empty())
                },
    {
        let mut list: Vec<FavoriteItem> = Vec::new();
        let mut i: usize = 0;
        while i < resp_data.list.len()
            invariant
                i <= resp_data.list@.len(),
                list@.len() == i,
                forall|k: int|
                    0 <= k < i ==> {
                        let item = #[trigger] list@[k];
                        &&& item.uuid == resp_data.list@[k].uuid
                        &&& item.b_folder == resp_data.list@[k].b_folder
                        &&& item.comic.lists(resp_data.list@[k].comic)
                        &&& item.comic.located(*path_word_to_dir_map, false, Seq::empty())
                    },
            decreases resp_data.list@.len() - i,
        {
            let item = &resp_data.list[i];
            let comic = ComicInFavorite::from_resp_data(&item.comic, path_word_to_dir_map);
            list.push(FavoriteItem { uuid: item.uuid, b_folder: item.b_folder, comic });
            i = i + 1;
        }
        GetFavoriteResult(
            Pagination {
                list,
                total: resp_data.total,
                limit: resp_data.limit,
                offset: resp_data.offset,
            },
        )
    }
}

} // verus!
