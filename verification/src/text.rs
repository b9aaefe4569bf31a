//! Lists of strings, as contracts see them.

use vstd::prelude::*;

verus! {

/// The strings of a list, each as its sequence of characters.
pub open spec fn views(lines: Seq<String>) -> Seq<Seq<char>> {
    lines.map_values(|line: String| line@)
}

/// Appends one string to a list.
pub(crate) fn push_line(lines: &mut Vec<String>, line: String)
    ensures
        views(final(lines)@) == views(old(lines)@).push(line@),
{
    lines.push(line);
    assert(views(lines@) =~= views(old(lines)@).push(line@));
}

/// Appends a copy of a string slice to a list.
pub(crate) fn push_str_line(lines: &mut Vec<String>, line: &str)
    ensures
        views(final(lines)@) == views(old(lines)@).push(line@),
{
    push_line(lines, String::from_str(line));
}

/// An empty list of strings.
pub(crate) fn no_lines() -> (lines: Vec<String>)
    ensures
        views(lines@) == Seq::<Seq<char>>::empty(),
{
    let lines: Vec<String> = Vec::new();
    assert(views(lines@) =~= Seq::<Seq<char>>::empty());
    lines
}

} // verus!
