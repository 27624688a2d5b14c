//! Directory names made from templates.
//!
//! A template such as `{comic_title}/{author}` names one directory per part
//! between slashes. Each part is filled in with the values of its
//! placeholders, made into a file name, and left out if nothing remains.

use vstd::prelude::*;
use vstd::string::*;
use std::collections::HashMap;
use crate::chapter_info::{DirPath, DirPathView};
use crate::utils::{filename_filter, filtered_name};

verus! {

/// What `strfmt` reports for a template it cannot fill in.
#[verifier::external_type_specification]
#[verifier::external_body]
pub struct ExFmtError(strfmt::FmtError);

/// The values that a directory template may use for a comic.
#[derive(Default, Debug, Clone, PartialEq, Eq)]
pub struct ComicDirFmtParams {
    pub comic_uuid: String,
    pub comic_path_word: String,
    pub comic_title: String,
    pub author: String,
}

/// Why directories could not be named.
#[derive(Debug, Clone, Copy, PartialEq, Eq, Structural)]
pub enum NamingError {
    /// A part of the template cannot be filled in: it is malformed, or names
    /// a value that there is none of, or asks for what text cannot do.
    Format,
    /// The pattern that finds the placeholders of the order was refused.
    Pattern,
}

/// What `strfmt::strfmt` returns for the template `fmt` and the named values
/// `vars`, of which no name comes twice: the text, or `None` where it reports
/// an error.
pub uninterp spec fn strfmt_output(fmt: Seq<char>, vars: Seq<(Seq<char>, Seq<char>)>) -> Option<
    Seq<char>,
>;

/// No name comes twice among the named values.
pub open spec fn distinct_names(vars: Seq<(Seq<char>, Seq<char>)>) -> bool {
    forall|i: int, j: int| 0 <= i < j < vars.len() ==> vars[i].0 != vars[j].0
}

/// Named values as plain text.
pub open spec fn var_views(vars: Seq<(String, String)>) -> Seq<(Seq<char>, Seq<char>)> {
    vars.map_values(|v: (String, String)| (v.0@, v.1@))
}

/// The parts of `s` between its slashes. There is one part more than there
/// are slashes; a part may be empty.
pub open spec fn split_slash(s: Seq<char>) -> Seq<Seq<char>>
    decreases s.len(),
{
    if s.len() == 0 {
        seq![Seq::empty()]
    } else {
        let before = split_slash(s.drop_last());
        if s.last() == '/' {
            before.push(Seq::empty())
        } else {
            before.drop_last().push(before.last().push(s.last()))
        }
    }
}

/// The directory names that the template parts `parts` give with the values
/// `vars`: each part filled in and made a file name, the empty ones left out.
/// One part that cannot be filled in fails them all.
pub open spec fn dir_names(parts: Seq<Seq<char>>, vars: Seq<(Seq<char>, Seq<char>)>) -> Option<
    Seq<Seq<char>>,
>
    decreases parts.len(),
{
    if parts.len() == 0 {
        Some(Seq::empty())
    } else {
        match (dir_names(parts.drop_last(), vars), strfmt_output(parts.last(), vars)) {
            (Some(names), Some(text)) => {
                let name = filtered_name(text);
                if name.len() == 0 {
                    Some(names)
                } else {
                    Some(names.push(name))
                }
            },
            _ => None,
        }
    }
}

/// The directory below `base` that the template `fmt` names with the values
/// `vars`.
pub open spec fn named_dir(base: DirPathView, fmt: Seq<char>, vars: Seq<(Seq<char>, Seq<char>)>) -> Option<
    DirPathView,
> {
    match dir_names(split_slash(fmt), vars) {
        Some(names) => Some(DirPathView { root: base.root, names: base.names + names }),
        None => None,
    }
}

impl ComicDirFmtParams {
    /// The values by name, as a template refers to them.
    pub open spec fn var_seq(self) -> Seq<(Seq<char>, Seq<char>)> {
        seq![
            ("comic_uuid"@, self.comic_uuid@),
            ("comic_path_word"@, self.comic_path_word@),
            ("comic_title"@, self.comic_title@),
            ("author"@, self.author@),
        ]
    }

    /// The values by name, as a template refers to them.
    pub fn vars(&self) -> (vars: Vec<(String, String)>)
        ensures
            var_views(vars@) == self.var_seq(),
            distinct_names(self.var_seq()),
    {
        let mut vars: Vec<(String, String)> = Vec::new();
        vars.push((String::from_str("comic_uuid"), self.comic_uuid.clone()));
        vars.push((String::from_str("comic_path_word"), self.comic_path_word.clone()));
        vars.push((String::from_str("comic_title"), self.comic_title.clone()));
        vars.push((String::from_str("author"), self.author.clone()));
        proof {
            reveal_strlit("comic_uuid");
            reveal_strlit("comic_path_word");
            reveal_strlit("comic_title");
            reveal_strlit("author");
            assert(var_views(vars@) =~= self.var_seq());
            let names = self.var_seq();
            assert(names[0].0.len() == 10);
            assert(names[1].0.len() == 15);
            assert(names[2].0.len() == 11);
            assert(names[3].0.len() == 6);
            assert forall|i: int, j: int| 0 <= i < j < names.len() implies names[i].0
                != names[j].0 by {
                assert(names[i].0.len() != names[j].0.len());
            }
        }
        vars
    }
}

/// Fills in a template with `strfmt::strfmt`, the named values handed over as
/// a `HashMap`, one entry for each. The result is the text, or the error the
/// crate reports; it is given the name `strfmt_output`. The text is as long as
/// the widths in the template ask.
#[verifier::external_body]
pub(crate) fn fill_template(fmt: &str, vars: &Vec<(String, String)>) -> (res: Result<
    String,
    strfmt::FmtError,
>)
    requires
        distinct_names(var_views(vars@)),
    ensures
        match res {
            Ok(text) => strfmt_output(fmt@, var_views(vars@)) == Some(text@),
            Err(_) => strfmt_output(fmt@, var_views(vars@)) is None,
        },
{
    let map: HashMap<String, String> = vars.iter().cloned().collect();
    strfmt::strfmt(fmt, &map)
}

/// The parts of `s` between its slashes.
pub fn split_on_slash(s: &str) -> (parts: Vec<String>)
    ensures
        parts@.map_values(|p: String| p@) == split_slash(s@),
{
    let mut done: Vec<String> = Vec::new();
    let mut current = String::new();
    proof {
        assert(s@.subrange(0, 0) =~= Seq::<char>::empty());
        assert(done@.map_values(|p: String| p@).push(current@) =~= seq![Seq::<char>::empty()]);
    }
    for c in it: s.chars()
        invariant
            it.seq() == s@,
            done@.map_values(|p: String| p@).push(current@) == split_slash(
                s@.subrange(0, it.index() as int),
            ),
    {
        let ghost before = s@.subrange(0, it.index() as int);
        let ghost pieces = done@.map_values(|p: String| p@);
        let ghost piece = current@;
        proof {
            assert(s@.subrange(0, it.index() + 1).drop_last() =~= before);
            assert(s@.subrange(0, it.index() + 1).last() == c);
            assert(pieces.push(piece).last() == piece);
            assert(pieces.push(piece).drop_last() =~= pieces);
        }
        if c == '/' {
            done.push(current);
            current = String::new();
            assert(done@.map_values(|p: String| p@) =~= pieces.push(piece));
        } else {
            current.push(c);
        }
    }
    proof {
        assert(s@.subrange(0, s@.len() as int) =~= s@);
    }
    let ghost pieces = done@.map_values(|p: String| p@);
    let ghost piece = current@;
    done.push(current);
    assert(done@.map_values(|p: String| p@) =~= pieces.push(piece));
    done
}

/// Whether no name comes twice among the named values.
pub fn has_distinct_names(vars: &Vec<(String, String)>) -> (distinct: bool)
    ensures
        distinct == distinct_names(var_views(vars@)),
{
    let ghost views = var_views(vars@);
    let mut j: usize = 0;
    while j < vars.len()
        invariant
            j <= vars@.len(),
            views == var_views(vars@),
            forall|a: int, b: int| 0 <= a < b < j ==> views[a].0 != views[b].0,
        decreases vars@.len() - j,
    {
        let mut i: usize = 0;
        while i < j
            invariant
                i <= j < vars@.len(),
                views == var_views(vars@),
                forall|a: int| 0 <= a < i ==> views[a].0 != views[j as int].0,
            decreases j - i,
        {
            assert(views[i as int] == (vars@[i as int].0@, vars@[i as int].1@));
            assert(views[j as int] == (vars@[j as int].0@, vars@[j as int].1@));
            if vars[i].0 == vars[j].0 {
                return false;
            }
            i = i + 1;
        }
        j = j + 1;
    }
    true
}

/// Names the directories that the template `fmt` asks for with the values
/// `vars`, of which no name comes twice.
///
/// The template is cut at its slashes. Each part is filled in and made a file
/// name; a part of which nothing remains names no directory. The call fails
/// if a part cannot be filled in.
pub fn format_dir_names(fmt: &str, vars: &Vec<(String, String)>) -> (res: Result<
    Vec<String>,
    NamingError,
>)
    requires
        distinct_names(var_views(vars@)),
    ensures
        match res {
            Ok(names) => dir_names(split_slash(fmt@), var_views(vars@)) == Some(
                names@.map_values(|n: String| n@),
            ),
            Err(_) => dir_names(split_slash(fmt@), var_views(vars@)) is None,
        },
{
    let parts = split_on_slash(fmt);
    let ghost part_views = parts@.map_values(|p: String| p@);
    let mut names: Vec<String> = Vec::new();
    let mut i: usize = 0;
    while i < parts.len()
        invariant
            i <= parts@.len(),
            part_views == parts@.map_values(|p: String| p@),
            part_views == split_slash(fmt@),
            distinct_names(var_views(vars@)),
            dir_names(part_views.subrange(0, i as int), var_views(vars@)) == Some(
                names@.map_values(|n: String| n@),
            ),
        decreases parts@.len() - i,
    {
        let ghost before = names@.map_values(|n: String| n@);
        proof {
            assert(part_views.subrange(0, i + 1).drop_last() =~= part_views.subrange(0, i as int));
            assert(part_views.subrange(0, i + 1).last() == parts@[i as int]@);
        }
        match fill_template(parts[i].as_str(), vars) {
            Ok(text) => {
                let name = filename_filter(text.as_str());
                if name.as_str().unicode_len() > 0 {
                    names.push(name);
                    assert(names@.map_values(|n: String| n@) =~= before.push(name@));
                }
            },
            Err(_) => {
                proof {
                    assert(dir_names(part_views.subrange(0, i + 1), var_views(vars@)) is None);
                    lemma_dir_names_fail(part_views, var_views(vars@), i + 1);
                }
                return Err(NamingError::Format);
            },
        }
        i = i + 1;
    }
    assert(part_views.subrange(0, parts@.len() as int) =~= part_views);
    Ok(names)
}

/// Parts that fail up to some point fail as a whole.
proof fn lemma_dir_names_fail(parts: Seq<Seq<char>>, vars: Seq<(Seq<char>, Seq<char>)>, upto: int)
    requires
        0 <= upto <= parts.len(),
        dir_names(parts.subrange(0, upto), vars) is None,
    ensures
        dir_names(parts, vars) is None,
    decreases parts.len() - upto,
{
    if upto < parts.len() {
        assert(parts.subrange(0, upto + 1).drop_last() =~= parts.subrange(0, upto));
        lemma_dir_names_fail(parts, vars, upto + 1);
    } else {
        assert(parts.subrange(0, upto) =~= parts);
    }
}

/// The directory `names` below `base`.
pub fn join_all(base: DirPath, names: Vec<String>) -> (dir: DirPath)
    ensures
        dir@ == (DirPathView {
            root: base@.root,
            names: base@.names + names@.map_values(|n: String| n@),
        }),
{
    let ghost wanted = base@.names + names@.map_values(|n: String| n@);
    let ghost root = base@.root;
    let mut dir = base;
    let mut i: usize = 0;
    while i < names.len()
        invariant
            i <= names@.len(),
            dir@.root == root,
            dir@.names == wanted.subrange(0, wanted.len() - names@.len() + i),
            wanted.len() >= names@.len(),
            forall|k: int|
                0 <= k < names@.len() ==> wanted[wanted.len() - names@.len() + k]
                    == #[trigger] names@[k]@,
        decreases names@.len() - i,
    {
        let ghost before = dir@.names;
        dir = dir.join(names[i].clone());
        i = i + 1;
        assert(dir@.names =~= wanted.subrange(0, wanted.len() - names@.len() + i));
    }
    assert(dir@.names =~= wanted);
    dir
}

} // verus!
