//! The staging directory: where a chapter's pages gather before the chapter is
//! published by one rename.

use vstd::prelude::*;
use vstd::string::*;
use crate::text::{zero_pad3, zero_padded};

verus! {

/// What a staging directory's name begins with.
pub open spec fn staging_prefix() -> Seq<char> {
    ".下载中-"@
}

/// The name of the staging directory of the chapter directory `name`.
pub open spec fn staging_name(name: Seq<char>) -> Seq<char> {
    staging_prefix() + name
}

/// The file name of the page at `index`, counted from zero, with the file
/// extension `extension`: the page's number, counted from one, in at least
/// three digits, a dot and the extension.
pub open spec fn page_name(index: int, extension: Seq<char>) -> Seq<char> {
    zero_padded(index + 1, 3) + seq!['.'] + extension
}

/// Whether a staged file with the extension `found` stays when pages are
/// wanted with the extension `wanted`. A file without an extension, or with
/// one that is not text, has `found == None` and goes.
pub open spec fn keeps(found: Option<Seq<char>>, wanted: Seq<char>) -> bool {
    found == Some(wanted)
}

/// The extensions as plain text.
pub open spec fn extension_views(extensions: Seq<Option<String>>) -> Seq<Option<Seq<char>>> {
    extensions.map_values(
        |e: Option<String>|
            match e {
                Some(s) => Some(s@),
                None => None,
            },
    )
}

/// One operation of the commit.
#[derive(Debug, Clone, Copy, PartialEq, Eq, Structural)]
pub enum CommitOp {
    /// Remove the final directory and all that is in it.
    RemoveFinal,
    /// Rename the staging directory to the final directory.
    RenameStaging,
}

/// The operations of a commit, in order, where the final directory exists
/// already or not.
pub open spec fn commit_ops(final_exists: bool) -> Seq<CommitOp> {
    if final_exists {
        seq![CommitOp::RemoveFinal, CommitOp::RenameStaging]
    } else {
        seq![CommitOp::RenameStaging]
    }
}

/// The name of the directory in which the chapter directory `name` is staged:
/// a sibling of it, marked as unfinished.
pub fn temp_dir_name(name: &str) -> (staged: String)
    ensures
        staged@ == staging_name(name@),
{
    let mut staged = String::from_str(".下载中-");
    staged.append(name);
    staged
}

/// The file name of the page at `index`, counted from zero.
///
/// The page after the last index that an `i64` holds has no number, so that
/// index is left out.
pub fn page_file_name(index: i64, extension: &str) -> (name: String)
    requires
        index < i64::MAX,
    ensures
        name@ == page_name(index as int, extension@),
{
    let mut name = zero_pad3(index + 1);
    name.push('.');
    name.append(extension);
    assert(name@ =~= page_name(index as int, extension@));
    name
}

/// Whether a staged file stays.
pub fn should_keep(found: &Option<String>, wanted: &str) -> (keep: bool)
    ensures
        keep == keeps(
            match *found {
                Some(s) => Some(s@),
                None => None,
            },
            wanted@,
        ),
{
    match found {
        Some(e) => {
            let wanted_owned = wanted.to_owned();
            *e == wanted_owned
        },
        None => false,
    }
}

/// Picks the staged files to remove before a download: those left by a run
/// with another image format, which would otherwise pass for pages.
///
/// `extensions` holds the extension of each file found in the staging
/// directory. The result holds, in rising order, the position of every file
/// that does not stay, and of no other.
pub fn stale_entries(extensions: &Vec<Option<String>>, wanted: &str) -> (stale: Vec<usize>)
    ensures
        forall|k: int|
            0 <= k < stale@.len() ==> 0 <= #[trigger] stale@[k] < extensions@.len() && !keeps(
                extension_views(extensions@)[stale@[k] as int],
                wanted@,
            ),
        forall|j: int, k: int| 0 <= j < k < stale@.len() ==> stale@[j] < stale@[k],
        forall|i: int|
            0 <= i < extensions@.len() && !keeps(
                #[trigger] extension_views(extensions@)[i],
                wanted@,
            ) ==> stale@.contains(i as usize),
{
    let mut stale: Vec<usize> = Vec::new();
    let mut i: usize = 0;
    while i < extensions.len()
        invariant
            i <= extensions@.len(),
            forall|k: int|
                0 <= k < stale@.len() ==> 0 <= #[trigger] stale@[k] < i && !keeps(
                    extension_views(extensions@)[stale@[k] as int],
                    wanted@,
                ),
            forall|j: int, k: int| 0 <= j < k < stale@.len() ==> stale@[j] < stale@[k],
            forall|n: int|
                0 <= n < i && !keeps(#[trigger] extension_views(extensions@)[n], wanted@)
                    ==> stale@.contains(n as usize),
        decreases extensions@.len() - i,
    {
        if !should_keep(&extensions[i], wanted) {
            let ghost before = stale@;
            stale.push(i);
            proof {
                assert(stale@[before.len() as int] == i);
                assert forall|n: int|
                    0 <= n < i + 1 && !keeps(
                        #[trigger] extension_views(extensions@)[n],
                        wanted@,
                    ) implies stale@.contains(n as usize) by {
                    if n < i {
                        let k = choose|k: int| 0 <= k < before.len() && before[k] == n as usize;
                        assert(stale@[k] == n as usize);
                    }
                }
            }
        }
        i = i + 1;
    }
    stale
}

/// Plans the commit of a chapter whose final directory is known or not, and
/// exists already or not.
///
/// Without a final directory there is nothing to commit to, and no plan. With
/// one, a directory found at the final path is removed first; the rename comes
/// last and is the only step that publishes.
pub fn commit_plan(final_dir_known: bool, final_exists: bool) -> (plan: Option<Vec<CommitOp>>)
    ensures
        plan is Some == final_dir_known,
        final_dir_known ==> plan->0@ == commit_ops(final_exists),
{
    if !final_dir_known {
        return None;
    }
    let mut ops: Vec<CommitOp> = Vec::new();
    if final_exists {
        ops.push(CommitOp::RemoveFinal);
    }
    ops.push(CommitOp::RenameStaging);
    assert(ops@ =~= commit_ops(final_exists));
    Some(ops)
}

/// A file that stays in the staging directory has the extension wanted.
pub proof fn lemma_kept_files_have_wanted_extension(found: Option<Seq<char>>, wanted: Seq<char>)
    requires
        keeps(found, wanted),
    ensures
        found == Some(wanted),
{
}

/// The pages of a chapter have different file names.
pub proof fn lemma_page_names_differ(i: int, j: int, extension: Seq<char>)
    requires
        0 <= i < j,
    ensures
        page_name(i, extension) != page_name(j, extension),
{
    crate::text::lemma_zero_padded_injective(i + 1, j + 1);
    let a = zero_padded(i + 1, 3);
    let b = zero_padded(j + 1, 3);
    let tail = seq!['.'] + extension;
    assert(page_name(i, extension) =~= a + tail);
    assert(page_name(j, extension) =~= b + tail);
    if a + tail == b + tail {
        assert(a.len() == b.len());
        assert(a =~= (a + tail).subrange(0, a.len() as int));
        assert(b =~= (b + tail).subrange(0, b.len() as int));
    }
}

} // verus!
