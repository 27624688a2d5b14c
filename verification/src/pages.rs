//! The pages of a chapter as the upstream lists them.

use vstd::prelude::*;
use crate::text::{replace, replaced};

verus! {

/// The marker of the small rendition in an image's address.
pub open spec fn small_rendition() -> Seq<char> {
    ".c800x."@
}

/// The marker of the large rendition in an image's address.
pub open spec fn large_rendition() -> Seq<char> {
    ".c1500x."@
}

/// The address to fetch for the image listed at `url`: that of its large
/// rendition.
pub open spec fn page_url(url: Seq<char>) -> Seq<char> {
    replaced(url, small_rendition(), large_rendition())
}

/// The number of images of a chapter with `len` pages, as the counter holds
/// it: the counter has 32 bits and wraps.
pub open spec fn counted_pages(len: usize) -> u32 {
    (len as int % 0x1_0000_0000) as u32
}

/// Pairs each image of a chapter with its place among the pages.
///
/// `urls` lists the images in the order the upstream sent them, and `words`
/// holds at the same position the index, from zero, of the page that the image
/// is. There is an index for every image. Each address is turned into that of
/// the large rendition.
pub fn url_and_index_pairs(urls: &Vec<String>, words: &Vec<i64>) -> (pairs: Vec<(String, i64)>)
    requires
        urls@.len() <= words@.len(),
    ensures
        pairs@.len() == urls@.len(),
        forall|i: int|
            0 <= i < urls@.len() ==> (#[trigger] pairs@[i]).0@ == page_url(urls@[i]@)
                && pairs@[i].1 == words@[i],
{
    proof {
        reveal_strlit(".c800x.");
    }
    let mut pairs: Vec<(String, i64)> = Vec::new();
    let mut i: usize = 0;
    while i < urls.len()
        invariant
            i <= urls@.len(),
            urls@.len() <= words@.len(),
            ".c800x."@.len() > 0,
            pairs@.len() == i,
            forall|k: int|
                0 <= k < i ==> (#[trigger] pairs@[k]).0@ == page_url(urls@[k]@) && pairs@[k].1
                    == words@[k],
        decreases urls@.len() - i,
    {
        let url = replace(urls[i].as_str(), ".c800x.", ".c1500x.");
        pairs.push((url, words[i]));
        i = i + 1;
    }
    pairs
}

/// The number of images to count for a chapter with `len` pages.
pub fn total_img_count(len: usize) -> (total: u32)
    ensures
        total == counted_pages(len),
        len <= u32::MAX ==> total == len,
{
    ((len as u64) % 0x1_0000_0000u64) as u32
}

} // verus!
