//! Where the comics that were downloaded before lie on disk, by the word that
//! names each comic in addresses.

use vstd::prelude::*;

verus! {

/// The directories found for each comic, in the order they were found.
#[derive(Default, Debug, Clone, PartialEq, Eq)]
pub struct PathWordDirs {
    pub entries: Vec<(String, Vec<String>)>,
}

/// Whether the entry at `i` is for the comic `path_word`.
pub open spec fn is_entry_for(entries: Seq<(String, Vec<String>)>, path_word: Seq<char>, i: int) -> bool {
    0 <= i < entries.len() && entries[i].0@ == path_word
}

/// Whether the entry at `i` is the first one for the comic `path_word`.
pub open spec fn is_first_entry_for(
    entries: Seq<(String, Vec<String>)>,
    path_word: Seq<char>,
    i: int,
) -> bool {
    is_entry_for(entries, path_word, i) && forall|j: int|
        0 <= j < i ==> !is_entry_for(entries, path_word, j)
}

/// The directories as plain text.
pub open spec fn dir_views(dirs: Seq<String>) -> Seq<Seq<char>> {
    dirs.map_values(|d: String| d@)
}

/// The directories found for the comic `path_word`: those of the first entry
/// for it.
pub open spec fn dirs_for(entries: Seq<(String, Vec<String>)>, path_word: Seq<char>) -> Option<
    Seq<Seq<char>>,
> {
    if exists|i: int| is_first_entry_for(entries, path_word, i) {
        let i = choose|i: int| is_first_entry_for(entries, path_word, i);
        Some(dir_views(entries[i].1@))
    } else {
        None
    }
}

/// There is one first entry at most.
pub proof fn lemma_first_entry_unique(
    entries: Seq<(String, Vec<String>)>,
    path_word: Seq<char>,
    i: int,
)
    requires
        is_first_entry_for(entries, path_word, i),
    ensures
        dirs_for(entries, path_word) == Some(dir_views(entries[i].1@)),
{
    let c = choose|c: int| is_first_entry_for(entries, path_word, c);
    if c < i {
        assert(!is_entry_for(entries, path_word, c));
    }
    if i < c {
        assert(!is_entry_for(entries, path_word, i));
    }
}

/// Without an entry for a comic there are no directories for it.
pub proof fn lemma_no_entry(entries: Seq<(String, Vec<String>)>, path_word: Seq<char>)
    requires
        forall|j: int| 0 <= j < entries.len() ==> !is_entry_for(entries, path_word, j),
    ensures
        dirs_for(entries, path_word) is None,
{
}

/// No comic has two entries.
pub open spec fn distinct_keys(entries: Seq<(String, Vec<String>)>) -> bool {
    forall|i: int, j: int| 0 <= i < j < entries.len() ==> entries[i].0@ != entries[j].0@
}

impl PathWordDirs {
    /// No comic in it has two entries.
    pub open spec fn wf(self) -> bool {
        distinct_keys(self.entries@)
    }

    /// The directories found for the comic `path_word`.
    pub open spec fn dirs(self, path_word: Seq<char>) -> Option<Seq<Seq<char>>> {
        dirs_for(self.entries@, path_word)
    }

    /// A map without a comic.
    pub fn new() -> (map: PathWordDirs)
        ensures
            map.wf(),
            map.entries@.len() == 0,
            forall|path_word: Seq<char>| map.dirs(path_word) is None,
    {
        PathWordDirs { entries: Vec::new() }
    }

    /// Whether no comic has two entries.
    pub fn well_formed(&self) -> (b: bool)
        ensures
            b == self.wf(),
    {
        let mut j: usize = 0;
        while j < self.entries.len()
            invariant
                j <= self.entries@.len(),
                forall|a: int, b: int| 0 <= a < b < j ==> self.entries@[a].0@ != self.entries@[b].0@,
            decreases self.entries@.len() - j,
        {
            let mut i: usize = 0;
            while i < j
                invariant
                    i <= j < self.entries@.len(),
                    forall|a: int| 0 <= a < i ==> self.entries@[a].0@ != self.entries@[j as int].0@,
                decreases j - i,
            {
                if self.entries[i].0 == self.entries[j].0 {
                    return false;
                }
                i = i + 1;
            }
            j = j + 1;
        }
        true
    }

    /// The position of the first entry for the comic `path_word`.
    pub fn position(&self, path_word: &String) -> (found: Option<usize>)
        ensures
            match found {
                Some(i) => is_first_entry_for(self.entries@, path_word@, i as int),
                None => forall|j: int|
                    0 <= j < self.entries@.len() ==> !is_entry_for(self.entries@, path_word@, j),
            },
    {
        let mut i: usize = 0;
        while i < self.entries.len()
            invariant
                i <= self.entries@.len(),
                forall|j: int| 0 <= j < i ==> !is_entry_for(self.entries@, path_word@, j),
            decreases self.entries@.len() - i,
        {
            if self.entries[i].0 == *path_word {
                return Some(i);
            }
            i = i + 1;
        }
        None
    }

    /// The directories found for the comic `path_word`.
    pub fn get(&self, path_word: &String) -> (found: Option<&Vec<String>>)
        ensures
            match found {
                Some(dirs) => self.dirs(path_word@) == Some(dir_views(dirs@)),
                None => self.dirs(path_word@) is None,
            },
    {
        match self.position(path_word) {
            Some(i) => {
                proof {
                    lemma_first_entry_unique(self.entries@, path_word@, i as int);
                }
                Some(&self.entries[i].1)
            },
            None => {
                proof {
                    lemma_no_entry(self.entries@, path_word@);
                }
                None
            },
        }
    }

    /// Records that the comic `path_word` was found in `dir`: after the
    /// directories recorded for it before, if there are any.
    pub fn add(&mut self, path_word: String, dir: String)
        ensures
            old(self).wf() ==> final(self).wf(),
            final(self).dirs(path_word@) == Some(
                match old(self).dirs(path_word@) {
                    Some(dirs) => dirs.push(dir@),
                    None => seq![dir@],
                },
            ),
            forall|other: Seq<char>|
                other != path_word@ ==> final(self).dirs(other) == old(self).dirs(other),
    {
        let ghost before = self.entries@;
        match self.position(&path_word) {
            Some(i) => {
                let mut entry = self.entries.remove(i);
                let ghost old_dirs = dir_views(entry.1@);
                entry.1.push(dir);
                assert(dir_views(entry.1@) =~= old_dirs.push(dir@));
                self.entries.insert(i, entry);
                proof {
                    let after = self.entries@;
                    assert(after.len() == before.len());
                    assert forall|k: int| 0 <= k < after.len() implies #[trigger] after[k].0
                        == before[k].0 by {}
                    assert forall|k: int| 0 <= k < after.len() && k != i implies #[trigger] after[k]
                        == before[k] by {}
                    if distinct_keys(before) {
                        assert forall|a: int, b: int| 0 <= a < b < after.len() implies after[a].0@
                            != after[b].0@ by {
                            assert(after[a].0 == before[a].0);
                            assert(after[b].0 == before[b].0);
                        }
                    }
                    lemma_first_entry_unique(before, path_word@, i as int);
                    assert(is_first_entry_for(after, path_word@, i as int)) by {
                        assert forall|j: int| 0 <= j < i implies !is_entry_for(
                            after,
                            path_word@,
                            j,
                        ) by {
                            assert(!is_entry_for(before, path_word@, j));
                        }
                    }
                    lemma_first_entry_unique(after, path_word@, i as int);
                    assert forall|other: Seq<char>| other != path_word@ implies dirs_for(
                        after,
                        other,
                    ) == dirs_for(before, other) by {
                        lemma_same_keys_same_dirs(before, after, other, i as int);
                    }
                }
            },
            None => {
                self.entries.push((path_word, Vec::new()));
                let last = self.entries.len() - 1;
                let mut entry = self.entries.remove(last);
                entry.1.push(dir);
                assert(dir_views(entry.1@) =~= seq![dir@]);
                self.entries.push(entry);
                proof {
                    let after = self.entries@;
                    assert(after.len() == before.len() + 1);
                    assert forall|k: int| 0 <= k < before.len() implies #[trigger] after[k]
                        == before[k] by {}
                    if distinct_keys(before) {
                        assert forall|a: int, b: int| 0 <= a < b < after.len() implies after[a].0@
                            != after[b].0@ by {
                            assert(after[a] == before[a]);
                            if b < before.len() {
                                assert(after[b] == before[b]);
                            } else {
                                assert(!is_entry_for(before, path_word@, a));
                            }
                        }
                    }
                    lemma_no_entry(before, path_word@);
                    assert(is_first_entry_for(after, path_word@, before.len() as int)) by {
                        assert forall|j: int| 0 <= j < before.len() implies !is_entry_for(
                            after,
                            path_word@,
                            j,
                        ) by {
                            assert(!is_entry_for(before, path_word@, j));
                        }
                    }
                    lemma_first_entry_unique(after, path_word@, before.len() as int);
                    assert forall|other: Seq<char>| other != path_word@ implies dirs_for(
                        after,
                        other,
                    ) == dirs_for(before, other) by {
                        lemma_same_keys_same_dirs(before, after, other, before.len() as int);
                    }
                }
            },
        }
    }
}

/// Two lists of entries that agree wherever the entry is not for one comic
/// hold the same directories for every other comic. The second list may have
/// one entry more, at `at`, or another entry there.
proof fn lemma_same_keys_same_dirs(
    before: Seq<(String, Vec<String>)>,
    after: Seq<(String, Vec<String>)>,
    other: Seq<char>,
    at: int,
)
    requires
        0 <= at < after.len(),
        after.len() == before.len() || (after.len() == before.len() + 1 && at == before.len()),
        forall|k: int| 0 <= k < before.len() && k != at ==> #[trigger] after[k] == before[k],
        after[at].0@ != other,
        at < before.len() ==> before[at].0@ != other,
    ensures
        dirs_for(after, other) == dirs_for(before, other),
{
    if exists|i: int| is_first_entry_for(before, other, i) {
        let i = choose|i: int| is_first_entry_for(before, other, i);
        assert(i != at);
        assert(is_first_entry_for(after, other, i)) by {
            assert(after[i] == before[i]);
            assert forall|j: int| 0 <= j < i implies !is_entry_for(after, other, j) by {
                assert(!is_entry_for(before, other, j));
                if j != at {
                    assert(after[j] == before[j]);
                }
            }
        }
        lemma_first_entry_unique(before, other, i);
        lemma_first_entry_unique(after, other, i);
    } else {
        assert forall|j: int| 0 <= j < after.len() implies !is_entry_for(after, other, j) by {
            if j != at {
                assert(after[j] == before[j]);
                assert(!is_first_entry_for(before, other, j));
                lemma_some_first_entry(before, other, j);
            }
        }
        lemma_no_entry(after, other);
    }
}

/// Where there is an entry for a comic there is a first one.
proof fn lemma_some_first_entry(entries: Seq<(String, Vec<String>)>, path_word: Seq<char>, i: int)
    ensures
        is_entry_for(entries, path_word, i) ==> exists|f: int|
            is_first_entry_for(entries, path_word, f),
    decreases i,
{
    if is_entry_for(entries, path_word, i) {
        if exists|j: int| 0 <= j < i && is_entry_for(entries, path_word, j) {
            let j = choose|j: int| 0 <= j < i && is_entry_for(entries, path_word, j);
            lemma_some_first_entry(entries, path_word, j);
        } else {
            assert(is_first_entry_for(entries, path_word, i));
        }
    }
}

} // verus!
