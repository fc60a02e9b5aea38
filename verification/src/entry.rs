//! Single todo lines: the entry format `<title> - <description>` and the
//! completion marker that prefixes a checked-off line.

use vstd::prelude::*;
use vstd::string::StrSliceExecFns;
use vstd::string::StringExecFns;

verus! {

/// The text of a fresh entry: the title, a separating ` - `, the description.
pub open spec fn spec_entry(title: Seq<char>, desc: Seq<char>) -> Seq<char> {
    title + " - "@ + desc
}

/// A line counts as checked off when it starts with the completion marker glyph.
pub open spec fn spec_is_checked(line: Seq<char>) -> bool {
    line.len() > 0 && line[0] == '✅'
}

/// The checked-off form of a line: the marker glyph and a space, then the line.
pub open spec fn spec_marked(line: Seq<char>) -> Seq<char> {
    "✅ "@ + line
}

/// Builds the stored text of a new entry from its title and description.
pub fn format_entry(title: &str, desc: &str) -> (r: String)
    ensures
        r@ == spec_entry(title@, desc@),
{
    let mut s = String::from_str(title);
    s.append(" - ");
    s.append(desc);
    s
}

/// Reports whether a stored line is checked off.
pub fn is_checked_line(line: &str) -> (r: bool)
    ensures
        r == spec_is_checked(line@),
{
    if line.unicode_len() == 0 {
        false
    } else {
        line.get_char(0) == '✅'
    }
}

/// Prefixes a line with the completion marker; the result is always checked.
pub fn mark_line(line: &str) -> (r: String)
    ensures
        r@ == spec_marked(line@),
        spec_is_checked(r@),
{
    proof {
        reveal_strlit("✅ ");
    }
    let mut s = String::from_str("✅ ");
    s.append(line);
    s
}

} // verus!
