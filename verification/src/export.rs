//! Where the archives of a downloaded comic go.
//!
//! An archive of a chapter lies below the comic's export directory as the
//! chapter lies below the comic's download directory, with the directory of
//! the archive's kind put in between.

use vstd::prelude::*;
use vstd::string::*;
use crate::chapter_info::ChapterInfo;
use crate::comic::GroupChapters;

verus! {

/// The kind of archive.
#[derive(Debug, Clone, Copy, PartialEq, Eq, Structural)]
pub enum Archive {
    Cbz,
    Pdf,
}

/// Whether `names` begins with `prefix`.
pub open spec fn begins_with(names: Seq<Seq<char>>, prefix: Seq<Seq<char>>) -> bool {
    prefix.len() <= names.len() && names.subrange(0, prefix.len() as int) == prefix
}

/// `names` without `prefix` at its beginning, where it begins so.
pub open spec fn without_prefix(names: Seq<Seq<char>>, prefix: Seq<Seq<char>>) -> Seq<Seq<char>> {
    if begins_with(names, prefix) {
        names.subrange(prefix.len() as int, names.len() as int)
    } else {
        names
    }
}

/// Whether `name` is the directory of a kind of chapter.
pub open spec fn is_kind_dir(name: Seq<char>) -> bool {
    name == "话"@ || name == "卷"@ || name == "番外"@
}

/// `names` without the directory of a kind of chapter at its beginning.
pub open spec fn without_kind_dir(names: Seq<Seq<char>>) -> Seq<Seq<char>> {
    if names.len() > 0 && is_kind_dir(names[0]) {
        names.subrange(1, names.len() as int)
    } else {
        names
    }
}

/// The directories that lead from the directory of an archive's kind to the
/// archive of a chapter. `relative_parent` leads from the comic's download
/// directory to the directory that holds the chapter's. The directory of the
/// chapter's group and the directory of its kind are not repeated: they are
/// named above the archive's kind where chapters are kept apart.
pub open spec fn export_parent(relative_parent: Seq<Seq<char>>, group: Seq<Seq<char>>) -> Seq<
    Seq<char>,
> {
    without_kind_dir(without_prefix(relative_parent, group))
}

/// The chapters among `chapters` that are marked as downloaded, in order.
pub open spec fn downloaded_of(chapters: Seq<ChapterInfo>) -> Seq<ChapterInfo>
    decreases chapters.len(),
{
    if chapters.len() == 0 {
        Seq::empty()
    } else if chapters.last().is_downloaded == Some(true) {
        downloaded_of(chapters.drop_last()).push(chapters.last())
    } else {
        downloaded_of(chapters.drop_last())
    }
}

/// The downloaded chapters of the groups, group after group.
pub open spec fn downloaded_in(groups: Seq<GroupChapters>) -> Seq<ChapterInfo>
    decreases groups.len(),
{
    if groups.len() == 0 {
        Seq::empty()
    } else {
        downloaded_in(groups.drop_last()) + downloaded_of(groups.last().chapters@)
    }
}

/// What becomes of an object of a chapter's PDF when chapters are merged.
#[derive(Debug, Clone, Copy, PartialEq, Eq, Structural)]
pub enum MergedObject {
    /// A page: it is kept, below the page tree of the merged document.
    Page,
    /// A part of the chapter's own frame, which the merged document makes
    /// anew: it is left out.
    Dropped,
    /// Anything else: it is kept as it is.
    Kept,
}

/// The bytes of an ASCII text.
pub open spec fn ascii_bytes(text: Seq<char>) -> Seq<u8> {
    text.map_values(|c: char| c as u8)
}

/// What becomes of an object whose type is named `kind_name`.
pub open spec fn merged_object(kind_name: Seq<u8>) -> MergedObject {
    if kind_name == ascii_bytes("Page"@) {
        MergedObject::Page
    } else if kind_name == ascii_bytes("Catalog"@) || kind_name == ascii_bytes("Pages"@)
        || kind_name == ascii_bytes("Outlines"@) || kind_name == ascii_bytes("Outline"@) {
        MergedObject::Dropped
    } else {
        MergedObject::Kept
    }
}

/// Whether the bytes are those of the ASCII text.
fn is_ascii_text(bytes: &[u8], text: &str) -> (same: bool)
    requires
        text.is_ascii(),
    ensures
        same == (bytes@ == ascii_bytes(text@)),
{
    let len = text.unicode_len();
    if bytes.len() != len {
        return false;
    }
    let mut i: usize = 0;
    while i < len
        invariant
            text.is_ascii(),
            len == text@.len(),
            bytes@.len() == len,
            i <= len,
            forall|k: int| 0 <= k < i ==> bytes@[k] == text@[k] as u8,
        decreases len - i,
    {
        if bytes[i] != text.get_ascii(i) {
            assert(ascii_bytes(text@)[i as int] == text@[i as int] as u8);
            return false;
        }
        i = i + 1;
    }
    assert(bytes@ =~= ascii_bytes(text@));
    true
}

/// Decides what becomes of an object of a chapter's PDF in the merged
/// document, by the name of the object's type. An object without a type has
/// the empty name.
pub fn merged_object_fate(kind_name: &[u8]) -> (fate: MergedObject)
    ensures
        fate == merged_object(kind_name@),
{
    proof {
        reveal_strlit("Page");
        reveal_strlit("Catalog");
        reveal_strlit("Pages");
        reveal_strlit("Outlines");
        reveal_strlit("Outline");
    }
    if is_ascii_text(kind_name, "Page") {
        MergedObject::Page
    } else if is_ascii_text(kind_name, "Catalog") || is_ascii_text(kind_name, "Pages")
        || is_ascii_text(kind_name, "Outlines") || is_ascii_text(kind_name, "Outline") {
        MergedObject::Dropped
    } else {
        MergedObject::Kept
    }
}

/// Whether files with the extension `extension` are images that an archive
/// takes.
pub open spec fn is_image(extension: Seq<char>) -> bool {
    extension == "jpg"@ || extension == "jpeg"@ || extension == "png"@ || extension == "webp"@
        || extension == "gif"@
}

/// Whether files with the extension `extension` go into an archive as
/// images. The extension counts as it is written: page files are written in
/// small letters.
pub fn is_image_extension(extension: &str) -> (image: bool)
    ensures
        image == is_image(extension@),
{
    let extension = extension.to_owned();
    extension == String::from_str("jpg") || extension == String::from_str("jpeg") || extension
        == String::from_str("png") || extension == String::from_str("webp") || extension
        == String::from_str("gif")
}

impl Archive {
    /// The file extension of archives of this kind, which also names their
    /// directory.
    pub fn extension(&self) -> (ext: &'static str)
        ensures
            ext@ == match self {
                Archive::Cbz => "cbz"@,
                Archive::Pdf => "pdf"@,
            },
    {
        match self {
            Archive::Cbz => "cbz",
            Archive::Pdf => "pdf",
        }
    }
}

/// The chapters that are marked as downloaded, group after group and in the
/// order each group lists them.
pub fn get_downloaded_chapters(groups: &Vec<GroupChapters>) -> (chapters: Vec<ChapterInfo>)
    ensures
        chapters@.len() == downloaded_in(groups@).len(),
        forall|i: int|
            0 <= i < chapters@.len() ==> (#[trigger] chapters@[i])@ == downloaded_in(groups@)[i]@,
{
    let mut found: Vec<ChapterInfo> = Vec::new();
    let mut g: usize = 0;
    while g < groups.len()
        invariant
            g <= groups@.len(),
            found@.len() == downloaded_in(groups@.subrange(0, g as int)).len(),
            forall|i: int|
                0 <= i < found@.len() ==> (#[trigger] found@[i])@ == downloaded_in(
                    groups@.subrange(0, g as int),
                )[i]@,
        decreases groups@.len() - g,
    {
        let group = &groups[g];
        let ghost before = downloaded_in(groups@.subrange(0, g as int));
        let mut c: usize = 0;
        while c < group.chapters.len()
            invariant
                c <= group.chapters@.len(),
                found@.len() == before.len() + downloaded_of(
                    group.chapters@.subrange(0, c as int),
                ).len(),
                forall|i: int|
                    0 <= i < found@.len() ==> (#[trigger] found@[i])@ == (before + downloaded_of(
                        group.chapters@.subrange(0, c as int),
                    ))[i]@,
            decreases group.chapters@.len() - c,
        {
            proof {
                assert(group.chapters@.subrange(0, c + 1).drop_last()
                    =~= group.chapters@.subrange(0, c as int));
                assert(group.chapters@.subrange(0, c + 1).last() == group.chapters@[c as int]);
            }
            if let Some(true) = group.chapters[c].is_downloaded {
                found.push(group.chapters[c].clone());
            }
            c = c + 1;
        }
        proof {
            assert(group.chapters@.subrange(0, group.chapters@.len() as int) =~= group.chapters@);
            assert(groups@.subrange(0, g + 1).drop_last() =~= groups@.subrange(0, g as int));
            assert(groups@.subrange(0, g + 1).last() == groups@[g as int]);
        }
        g = g + 1;
    }
    assert(groups@.subrange(0, groups@.len() as int) =~= groups@);
    found
}

/// Takes `prefix` from the beginning of `names`, where it stands there.
pub fn strip_prefix(names: Vec<String>, prefix: &Vec<String>) -> (rest: Vec<String>)
    ensures
        rest@.map_values(|n: String| n@) == without_prefix(
            names@.map_values(|n: String| n@),
            prefix@.map_values(|n: String| n@),
        ),
{
    let ghost name_views = names@.map_values(|n: String| n@);
    let ghost prefix_views = prefix@.map_values(|n: String| n@);
    if prefix.len() > names.len() {
        return names;
    }
    let mut i: usize = 0;
    while i < prefix.len()
        invariant
            i <= prefix@.len() <= names@.len(),
            name_views == names@.map_values(|n: String| n@),
            prefix_views == prefix@.map_values(|n: String| n@),
            forall|k: int| 0 <= k < i ==> name_views[k] == prefix_views[k],
        decreases prefix@.len() - i,
    {
        if names[i] != prefix[i] {
            proof {
                if begins_with(name_views, prefix_views) {
                    assert(name_views.subrange(0, prefix_views.len() as int)[i as int]
                        == prefix_views[i as int]);
                }
            }
            return names;
        }
        i = i + 1;
    }
    assert(name_views.subrange(0, prefix_views.len() as int) =~= prefix_views);
    let mut names = names;
    let rest = names.split_off(prefix.len());
    assert(rest@.map_values(|n: String| n@) =~= name_views.subrange(
        prefix_views.len() as int,
        name_views.len() as int,
    ));
    rest
}

/// Names the directories between the directory of an archive's kind and the
/// archive of a chapter.
///
/// `relative_parent` leads from the comic's download directory to the
/// directory that holds the chapter's, and `group` is the directory of the
/// chapter's group, one name for each directory it is made of. The group's
/// directory is taken from the beginning if it stands there, and after it the
/// directory of a kind of chapter if one stands there.
pub fn export_relative_parent(relative_parent: Vec<String>, group: &Vec<String>) -> (names: Vec<
    String,
>)
    ensures
        names@.map_values(|n: String| n@) == export_parent(
            relative_parent@.map_values(|n: String| n@),
            group@.map_values(|n: String| n@),
        ),
{
    let mut names = strip_prefix(relative_parent, group);
    let ghost stripped = names@.map_values(|n: String| n@);
    if names.len() > 0 {
        let first = &names[0];
        let is_kind = *first == String::from_str("话") || *first == String::from_str("卷") || *first
            == String::from_str("番外");
        if is_kind {
            let rest = names.split_off(1);
            assert(rest@.map_values(|n: String| n@) =~= stripped.subrange(
                1,
                stripped.len() as int,
            ));
            return rest;
        }
    }
    names
}

} // verus!
