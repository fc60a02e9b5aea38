//! Operations on a todo list held in memory as an ordered sequence of lines.
//!
//! Line numbers are 1-based positions into the current snapshot; a number of
//! 0 or above the current count is invalid and leaves the list untouched.

use vstd::prelude::*;
use crate::entry::spec_is_checked;
use crate::entry::spec_marked;
use crate::entry::is_checked_line;
use crate::entry::mark_line;

verus! {

/// What a `check` request did to a list.
#[derive(Clone, Copy, Debug, PartialEq, Eq, Structural)]
pub enum CheckOutcome {
    /// The line was pending and is now prefixed with the completion marker.
    CheckedOff,
    /// The line already carried the marker; nothing was rewritten.
    AlreadyChecked,
    /// The line number was 0 or above the current count; nothing changed.
    InvalidLineNumber,
}

/// The view of a line list: each line as its character sequence.
pub open spec fn lines_view(lines: Seq<String>) -> Seq<Seq<char>> {
    lines.map_values(|l: String| l@)
}

/// A 1-based line number is valid exactly when it lies in `[1, count]`.
pub open spec fn valid_line_number(line_number: usize, count: nat) -> bool {
    1 <= line_number <= count
}

/// Marks the line at the given 1-based position as checked off.
///
/// An invalid position or an already-checked line leaves the list unchanged;
/// otherwise only the addressed line changes, to its marked form.
pub fn check_at(lines: &mut Vec<String>, line_number: usize) -> (r: CheckOutcome)
    ensures
        r == CheckOutcome::InvalidLineNumber <==> !valid_line_number(
            line_number,
            old(lines)@.len(),
        ),
        r == CheckOutcome::AlreadyChecked <==> valid_line_number(line_number, old(lines)@.len())
            && spec_is_checked(old(lines)@[line_number - 1]@),
        r != CheckOutcome::CheckedOff ==> final(lines)@ == old(lines)@,
        r == CheckOutcome::CheckedOff ==> lines_view(final(lines)@) == lines_view(
            old(lines)@,
        ).update(line_number - 1, spec_marked(old(lines)@[line_number - 1]@)),
{
    if line_number == 0 || line_number > lines.len() {
        return CheckOutcome::InvalidLineNumber;
    }
    let index = line_number - 1;
    if is_checked_line(lines[index].as_str()) {
        return CheckOutcome::AlreadyChecked;
    }
    let old_line = lines.remove(index);
    let marked = mark_line(old_line.as_str());
    lines.insert(index, marked);
    proof {
        assert(final(lines)@ =~= old(lines)@.update(
            index as int,
            final(lines)@[index as int],
        ));
        assert(lines_view(final(lines)@) =~= lines_view(old(lines)@).update(
            index as int,
            spec_marked(old(lines)@[index as int]@),
        ));
    }
    CheckOutcome::CheckedOff
}

/// Removes the line at the given 1-based position.
///
/// Returns whether the position was valid; on success the count drops by one
/// and every later line moves up by one place.
pub fn remove_at(lines: &mut Vec<String>, line_number: usize) -> (r: bool)
    ensures
        r <==> valid_line_number(line_number, old(lines)@.len()),
        !r ==> final(lines)@ == old(lines)@,
        r ==> final(lines)@ == old(lines)@.remove(line_number - 1),
        r ==> final(lines)@.len() == old(lines)@.len() - 1,
        r ==> forall|j: int|
            0 <= j < line_number - 1 ==> final(lines)@[j] == old(lines)@[j],
        r ==> forall|j: int|
            line_number <= j < old(lines)@.len() ==> final(lines)@[j - 1] == old(lines)@[j],
{
    if line_number == 0 || line_number > lines.len() {
        return false;
    }
    let index = line_number - 1;
    lines.remove(index);
    true
}

} // verus!
