//! The directory of a chapter, named from a template.
//!
//! A chapter's place in its group is a decimal number, and a template may ask
//! for it with a width, as in `{order:0>4}`. The width is meant for the whole
//! part of the number: chapter `5.1` is to become `0005.1`, not `05.1`. So the
//! placeholders of the order are filled in first and by their own rule, and
//! the template goes to the general formatter only after that.

use vstd::prelude::*;
use vstd::string::*;
use crate::chapter_info::{ChapterInfo, DirPath, DirPathView};
use crate::naming::{
    distinct_names,
    fill_template,
    format_dir_names,
    join_all,
    named_dir,
    strfmt_output,
    var_views,
    NamingError,
};
use crate::text::{chars_of, contains, occurs_in, replace, replaced, string_of};

verus! {

/// What matches an escaped brace or a placeholder of the order, with the
/// format that the placeholder asks for as the fourth group.
pub const ORDER_PATTERN: &'static str = r"(\{\{)|(\}\})|(\{order(?::(.*?))?\})";

/// The values that a directory template may use for a chapter.
#[derive(Default, Debug, Clone, PartialEq, Eq)]
pub struct ChapterDirFmtParams {
    pub comic_uuid: String,
    pub comic_path_word: String,
    pub comic_title: String,
    pub author: String,
    pub group_path_word: String,
    pub group_title: String,
    pub chapter_uuid: String,
    pub chapter_title: String,
    /// The chapter's place in its group, a decimal number written out.
    pub order: String,
}

/// Whether `i` is where the first dot of `s` stands.
pub open spec fn is_first_dot(s: Seq<char>, i: int) -> bool {
    0 <= i < s.len() && s[i] == '.' && forall|j: int| 0 <= j < i ==> s[j] != '.'
}

/// The whole part and the fraction of a decimal number written out: what
/// stands before its first dot and what stands after it. Without a dot the
/// fraction is empty.
pub open spec fn order_parts(s: Seq<char>) -> (Seq<char>, Seq<char>) {
    if exists|i: int| is_first_dot(s, i) {
        let i = choose|i: int| is_first_dot(s, i);
        (s.subrange(0, i), s.subrange(i + 1, s.len() as int))
    } else {
        (s, Seq::empty())
    }
}

/// Whether the fraction is written behind the whole part: an empty fraction
/// and the fraction `0` are not.
pub open spec fn appends_fraction(frac_part: Seq<char>) -> bool {
    frac_part.len() > 0 && frac_part != seq!['0']
}

/// The template that formats the whole part of an order in the format
/// `fmt_spec`.
pub open spec fn int_template(fmt_spec: Seq<char>) -> Seq<char> {
    "{v:"@ + fmt_spec + "}"@
}

/// What replaces one match of the pattern. `open_brace` and `close_brace` say
/// whether the match is an escaped brace, which stays as it is. Otherwise the
/// match is a placeholder of the order with the format `fmt_spec`: the whole
/// part is formatted so, or left as it is where the format cannot be applied,
/// and the fraction follows behind a dot.
pub open spec fn order_text(
    open_brace: bool,
    close_brace: bool,
    fmt_spec: Seq<char>,
    int_part: Seq<char>,
    frac_part: Seq<char>,
) -> Seq<char> {
    if open_brace {
        "{{"@
    } else if close_brace {
        "}}"@
    } else {
        let formatted = match strfmt_output(int_template(fmt_spec), seq![("v"@, int_part)]) {
            Some(text) => text,
            None => int_part,
        };
        if appends_fraction(frac_part) {
            formatted + seq!['.'] + frac_part
        } else {
            formatted
        }
    }
}

/// What `regex_lite` makes of the template `fmt` when every match of
/// `ORDER_PATTERN` is replaced by its `order_text`, for an order with the
/// parts `int_part` and `frac_part`; `None` where the pattern is refused.
pub uninterp spec fn order_placeholders_filled(
    fmt: Seq<char>,
    int_part: Seq<char>,
    frac_part: Seq<char>,
) -> Option<Seq<char>>;

/// Whether the entry at `i` is the last one named `name`.
pub open spec fn is_last_var(vars: Seq<(Seq<char>, Seq<char>)>, name: Seq<char>, i: int) -> bool {
    0 <= i < vars.len() && vars[i].0 == name && forall|j: int|
        i < j < vars.len() ==> vars[j].0 != name
}

/// The value named `name`: that of the last entry of the name, which is the
/// one that counts where a name comes twice.
pub open spec fn var_value(vars: Seq<(Seq<char>, Seq<char>)>, name: Seq<char>) -> Option<
    Seq<char>,
> {
    if exists|i: int| is_last_var(vars, name, i) {
        Some(vars[choose|i: int| is_last_var(vars, name, i)].1)
    } else {
        None
    }
}

/// The template `fmt` with the placeholders of the order filled in from the
/// values `vars`: unchanged where there is no order among them.
pub open spec fn order_preprocessed(fmt: Seq<char>, vars: Seq<(Seq<char>, Seq<char>)>) -> Option<
    Seq<char>,
> {
    match var_value(vars, "order"@) {
        None => Some(fmt),
        Some(order) => order_placeholders_filled(fmt, order_parts(order).0, order_parts(order).1),
    }
}

/// The name of the directory that keeps chapters of one kind apart; empty
/// for a kind that has none.
pub open spec fn type_dir(chapter_type: i64) -> Seq<char> {
    if chapter_type == 1 {
        "话"@
    } else if chapter_type == 2 {
        "卷"@
    } else if chapter_type == 3 {
        "番外"@
    } else {
        Seq::empty()
    }
}

/// The template to use in place of `chapter_dir_fmt` where chapters are kept
/// apart by kind: the group's directory is named already, so a part of the
/// template that names it again is taken out. `None` where there is no such
/// part.
pub open spec fn fmt_without_group(chapter_dir_fmt: Seq<char>) -> Option<Seq<char>> {
    if occurs_in(chapter_dir_fmt, "{group_title}/"@) {
        Some(replaced(chapter_dir_fmt, "{group_title}/"@, Seq::empty()))
    } else if occurs_in(chapter_dir_fmt, "{group_title}\\"@) {
        Some(replaced(chapter_dir_fmt, "{group_title}\\"@, Seq::empty()))
    } else {
        None
    }
}

impl ChapterDirFmtParams {
    /// The values by name, as a template refers to them.
    pub open spec fn var_seq(self) -> Seq<(Seq<char>, Seq<char>)> {
        seq![
            ("comic_uuid"@, self.comic_uuid@),
            ("comic_path_word"@, self.comic_path_word@),
            ("comic_title"@, self.comic_title@),
            ("author"@, self.author@),
            ("group_path_word"@, self.group_path_word@),
            ("group_title"@, self.group_title@),
            ("chapter_uuid"@, self.chapter_uuid@),
            ("chapter_title"@, self.chapter_title@),
            ("order"@, self.order@),
        ]
    }

    /// The values by name, as a template refers to them.
    pub fn vars(&self) -> (vars: Vec<(String, String)>)
        ensures
            var_views(vars@) == self.var_seq(),
            distinct_names(self.var_seq()),
    {
        let mut vars: Vec<(String, String)> = Vec::new();
        vars.push((String::from_str("comic_uuid"), self.comic_uuid.clone()));
        vars.push((String::from_str("comic_path_word"), self.comic_path_word.clone()));
        vars.push((String::from_str("comic_title"), self.comic_title.clone()));
        vars.push((String::from_str("author"), self.author.clone()));
        vars.push((String::from_str("group_path_word"), self.group_path_word.clone()));
        vars.push((String::from_str("group_title"), self.group_title.clone()));
        vars.push((String::from_str("chapter_uuid"), self.chapter_uuid.clone()));
        vars.push((String::from_str("chapter_title"), self.chapter_title.clone()));
        vars.push((String::from_str("order"), self.order.clone()));
        proof {
            reveal_strlit("comic_uuid");
            reveal_strlit("comic_path_word");
            reveal_strlit("comic_title");
            reveal_strlit("author");
            reveal_strlit("group_path_word");
            reveal_strlit("group_title");
            reveal_strlit("chapter_uuid");
            reveal_strlit("chapter_title");
            reveal_strlit("order");
            assert(var_views(vars@) =~= self.var_seq());
            let names = self.var_seq();
            assert(names[0].0.len() == 10);
            assert(names[1].0.len() == 15);
            assert(names[2].0.len() == 11);
            assert(names[3].0.len() == 6);
            assert(names[4].0.len() == 15);
            assert(names[5].0.len() == 11);
            assert(names[6].0.len() == 12);
            assert(names[7].0.len() == 13);
            assert(names[8].0.len() == 5);
            assert(names[1].0[0] == 'c' && names[4].0[0] == 'g');
            assert(names[2].0[0] == 'c' && names[5].0[0] == 'g');
            assert forall|i: int, j: int| 0 <= i < j < names.len() implies names[i].0
                != names[j].0 by {
                if (i == 1 && j == 4) || (i == 2 && j == 5) {
                    assert(names[i].0[0] != names[j].0[0]);
                } else {
                    assert(names[i].0.len() != names[j].0.len());
                }
            }
        }
        vars
    }
}

/// Replaces every match of `ORDER_PATTERN` in `fmt`, with
/// `regex_lite::Regex::new` and `Regex::replace_all`. The replacement of a
/// match is what [`render_order`] gives for its groups: the first and the
/// second say whether it is an escaped brace, the fourth is the format asked
/// for. The result is given the name `order_placeholders_filled`, and is
/// `None` where the crate refuses the pattern.
#[verifier::external_body]
fn fill_order_placeholders(fmt: &str, int_part: &str, frac_part: &str) -> (filled: Option<String>)
    ensures
        match filled {
            Some(text) => order_placeholders_filled(fmt@, int_part@, frac_part@) == Some(text@),
            None => order_placeholders_filled(fmt@, int_part@, frac_part@) is None,
        },
{
    let re = regex_lite::Regex::new(ORDER_PATTERN).ok()?;
    let filled = re.replace_all(fmt, |caps: &regex_lite::Captures| {
        let fmt_spec = caps.get(4).map_or("", |m| m.as_str());
        render_order(caps.get(1).is_some(), caps.get(2).is_some(), fmt_spec, int_part, frac_part)
    });
    Some(filled.into_owned())
}

/// What replaces one match of the pattern in a template.
///
/// An escaped brace stays. A placeholder of the order gives the whole part in
/// the format asked for, and behind it a dot and the fraction, unless the
/// fraction is empty or `0`. A format that cannot be applied leaves the whole
/// part as it is.
pub fn render_order(
    open_brace: bool,
    close_brace: bool,
    fmt_spec: &str,
    int_part: &str,
    frac_part: &str,
) -> (text: String)
    ensures
        text@ == order_text(open_brace, close_brace, fmt_spec@, int_part@, frac_part@),
{
    if open_brace {
        return String::from_str("{{");
    }
    if close_brace {
        return String::from_str("}}");
    }
    let mut int_fmt = String::from_str("{v:");
    int_fmt.append(fmt_spec);
    int_fmt.append("}");
    let mut temp_vars: Vec<(String, String)> = Vec::new();
    temp_vars.push((String::from_str("v"), int_part.to_owned()));
    assert(var_views(temp_vars@) =~= seq![("v"@, int_part@)]);
    let mut text = match fill_template(int_fmt.as_str(), &temp_vars) {
        Ok(formatted) => formatted,
        Err(_) => int_part.to_owned(),
    };
    let frac_len = frac_part.unicode_len();
    let is_zero = frac_len == 1 && frac_part.get_char(0) == '0';
    proof {
        if frac_len == 1 {
            assert(frac_part@ =~= seq![frac_part@[0]]);
        }
    }
    if frac_len > 0 && !is_zero {
        text.push('.');
        text.append(frac_part);
    }
    text
}

/// Cuts a decimal number written out at its first dot.
pub fn split_order(order: &str) -> (parts: (String, String))
    ensures
        (parts.0@, parts.1@) == order_parts(order@),
{
    let chars = chars_of(order);
    let len = chars.len();
    let mut i: usize = 0;
    while i < len
        invariant
            chars@ == order@,
            len == order@.len(),
            i <= len,
            forall|j: int| 0 <= j < i ==> order@[j] != '.',
        decreases len - i,
    {
        if chars[i] == '.' {
            proof {
                assert(is_first_dot(order@, i as int));
                let c = choose|c: int| is_first_dot(order@, c);
                assert(c == i) by {
                    if c < i {
                        assert(order@[c] != '.');
                    }
                    if i < c {
                        assert(order@[i as int] != '.');
                    }
                }
            }
            return (string_of(&chars, 0, i), string_of(&chars, i + 1, len));
        }
        i = i + 1;
    }
    (order.to_owned(), String::new())
}

/// The value named `name` among `vars`.
pub fn lookup_var<'a>(vars: &'a Vec<(String, String)>, name: &str) -> (value: Option<&'a String>)
    ensures
        match value {
            Some(v) => var_value(var_views(vars@), name@) == Some(v@),
            None => var_value(var_views(vars@), name@) is None,
        },
{
    let wanted = name.to_owned();
    let ghost views = var_views(vars@);
    let mut i: usize = vars.len();
    while i > 0
        invariant
            i <= vars@.len(),
            views == var_views(vars@),
            wanted@ == name@,
            forall|j: int| i <= j < vars@.len() ==> views[j].0 != name@,
        decreases i,
    {
        i = i - 1;
        if vars[i].0 == wanted {
            proof {
                assert(views[i as int] == (vars@[i as int].0@, vars@[i as int].1@));
                assert(is_last_var(views, name@, i as int));
                let c = choose|c: int| is_last_var(views, name@, c);
                assert(c == i) by {
                    if c < i {
                        assert(views[i as int].0 != name@);
                    }
                    if i < c {
                        assert(views[c].0 != name@);
                    }
                }
            }
            return Some(&vars[i].1);
        }
        assert(views[i as int] == (vars@[i as int].0@, vars@[i as int].1@));
    }
    None
}

/// The name of the directory that keeps chapters of the kind `chapter_type`
/// apart; empty for a kind that has none.
pub fn type_dir_name(chapter_type: i64) -> (name: &'static str)
    ensures
        name@ == type_dir(chapter_type),
        name@.len() == 0 <==> !(1 <= chapter_type <= 3),
{
    proof {
        reveal_strlit("话");
        reveal_strlit("卷");
        reveal_strlit("番外");
        reveal_strlit("");
    }
    if chapter_type == 1 {
        "话"
    } else if chapter_type == 2 {
        "卷"
    } else if chapter_type == 3 {
        "番外"
    } else {
        ""
    }
}

/// The template to use where chapters are kept apart by kind, if it differs
/// from `chapter_dir_fmt`.
pub fn chapter_fmt_override(chapter_dir_fmt: &str) -> (fmt: Option<String>)
    ensures
        match fmt {
            Some(text) => fmt_without_group(chapter_dir_fmt@) == Some(text@),
            None => fmt_without_group(chapter_dir_fmt@) is None,
        },
{
    proof {
        reveal_strlit("{group_title}/");
        reveal_strlit("{group_title}\\");
        reveal_strlit("");
        assert(""@ =~= Seq::<char>::empty());
    }
    if contains(chapter_dir_fmt, "{group_title}/") {
        Some(replace(chapter_dir_fmt, "{group_title}/", ""))
    } else if contains(chapter_dir_fmt, "{group_title}\\") {
        Some(replace(chapter_dir_fmt, "{group_title}\\", ""))
    } else {
        None
    }
}

impl ChapterInfo {
    /// Fills in the placeholders of the order in the template `fmt`, so that a
    /// width in them applies to the whole part of the number only.
    ///
    /// Without an order among `vars` the template stays as it is. The call
    /// fails, and leaves the template alone, only where the pattern of the
    /// placeholders is refused.
    pub fn preprocess_order_placeholder(fmt: &mut String, vars: &Vec<(String, String)>) -> (res:
        Result<(), NamingError>)
        ensures
            match res {
                Ok(()) => order_preprocessed(old(fmt)@, var_views(vars@)) == Some(final(fmt)@),
                Err(_) => order_preprocessed(old(fmt)@, var_views(vars@)) is None && final(fmt)@
                    == old(fmt)@,
            },
    {
        let order = match lookup_var(vars, "order") {
            Some(order) => order,
            None => {
                return Ok(());
            },
        };
        let (int_part, frac_part) = split_order(order.as_str());
        match fill_order_placeholders(fmt.as_str(), int_part.as_str(), frac_part.as_str()) {
            Some(filled) => {
                *fmt = filled;
                Ok(())
            },
            None => Err(NamingError::Pattern),
        }
    }

    /// The directory of a chapter: below `comic_download_dir`, the directories
    /// that the template names with the chapter's values. The template is
    /// `fmt_override` where there is one, else `chapter_dir_fmt`, and its
    /// placeholders of the order are filled in first.
    pub fn get_chapter_download_dir_by_fmt(
        chapter_dir_fmt: &str,
        comic_download_dir: &DirPath,
        fmt_params: &ChapterDirFmtParams,
        fmt_override: Option<String>,
    ) -> (res: Result<DirPath, NamingError>)
        ensures
            match res {
                Ok(dir) => chapter_dir(
                    chapter_dir_fmt@,
                    comic_download_dir@,
                    fmt_params.var_seq(),
                    match fmt_override {
                        Some(f) => Some(f@),
                        None => None,
                    },
                ) == Some(dir@),
                Err(_) => chapter_dir(
                    chapter_dir_fmt@,
                    comic_download_dir@,
                    fmt_params.var_seq(),
                    match fmt_override {
                        Some(f) => Some(f@),
                        None => None,
                    },
                ) is None,
            },
    {
        let vars = fmt_params.vars();
        let mut fmt = match fmt_override {
            Some(f) => f,
            None => chapter_dir_fmt.to_owned(),
        };
        match ChapterInfo::preprocess_order_placeholder(&mut fmt, &vars) {
            Ok(()) => {},
            Err(e) => {
                return Err(e);
            },
        }
        match format_dir_names(fmt.as_str(), &vars) {
            Ok(names) => Ok(join_all(comic_download_dir.clone(), names)),
            Err(e) => Err(e),
        }
    }
}

/// The directory of a chapter below `base`, for the template `chapter_dir_fmt`
/// or the one given in its place.
pub open spec fn chapter_dir(
    chapter_dir_fmt: Seq<char>,
    base: DirPathView,
    vars: Seq<(Seq<char>, Seq<char>)>,
    fmt_override: Option<Seq<char>>,
) -> Option<DirPathView> {
    let fmt = match fmt_override {
        Some(f) => f,
        None => chapter_dir_fmt,
    };
    match order_preprocessed(fmt, vars) {
        Some(filled) => named_dir(base, filled, vars),
        None => None,
    }
}

} // verus!
