//! Names that every file system takes.

use vstd::prelude::*;
use vstd::string::*;
use crate::text::{trim, trimmed};

verus! {

/// What stands for `c` in a file name: the characters that some file system
/// refuses are replaced by look-alikes, the two slashes by a space.
pub open spec fn filtered_char(c: char) -> char {
    if c == '\\' || c == '/' {
        ' '
    } else if c == ':' {
        '：'
    } else if c == '*' {
        '⭐'
    } else if c == '?' {
        '？'
    } else if c == '"' {
        '\''
    } else if c == '<' {
        '《'
    } else if c == '>' {
        '》'
    } else if c == '|' {
        '丨'
    } else {
        c
    }
}

/// The file name made from `s`: every character replaced by what stands for
/// it, then the white space at both ends removed.
pub open spec fn filtered_name(s: Seq<char>) -> Seq<char> {
    trimmed(s.map_values(|c: char| filtered_char(c)))
}

/// What stands for `c` in a file name.
fn filter_char(c: char) -> (r: char)
    ensures
        r == filtered_char(c),
{
    if c == '\\' || c == '/' {
        ' '
    } else if c == ':' {
        '：'
    } else if c == '*' {
        '⭐'
    } else if c == '?' {
        '？'
    } else if c == '"' {
        '\''
    } else if c == '<' {
        '《'
    } else if c == '>' {
        '》'
    } else if c == '|' {
        '丨'
    } else {
        c
    }
}

/// Makes a file name of `s`.
///
/// The result holds none of `\ / : * ? " < > |` and neither begins nor ends
/// with white space. It may be empty.
pub fn filename_filter(s: &str) -> (name: String)
    ensures
        name@ == filtered_name(s@),
{
    let mut mapped = String::new();
    for c in it: s.chars()
        invariant
            it.seq() == s@,
            mapped@ == s@.subrange(0, it.index() as int).map_values(|c: char| filtered_char(c)),
    {
        mapped.push(filter_char(c));
        assert(mapped@ =~= s@.subrange(0, it.index() + 1).map_values(
            |c: char| filtered_char(c),
        ));
    }
    assert(s@.subrange(0, s@.len() as int) =~= s@);
    trim(mapped.as_str())
}

} // verus!
