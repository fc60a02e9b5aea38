//! Trimming the description text read for a new entry: the longest
//! whitespace prefix and suffix are dropped, as `str::trim` would drop them,
//! with the result's relation to the input proved.

use vstd::prelude::*;
use vstd::string::StrSliceExecFns;
use vstd::string::StringExecFns;

verus! {

/// Whether a character has the Unicode white-space property; the decision
/// is `char::is_whitespace`'s and depends on the character alone.
pub uninterp spec fn spec_is_whitespace(c: char) -> bool;

/// Relies on char::is_whitespace: whether the character has the Unicode
/// white-space property, a function of the character alone.
pub assume_specification[ char::is_whitespace ](c: char) -> (r: bool)
    ensures
        r == spec_is_whitespace(c),
;

/// The text with its whitespace prefix removed.
pub open spec fn spec_trim_start(s: Seq<char>) -> Seq<char>
    decreases s.len(),
{
    if s.len() > 0 && spec_is_whitespace(s.first()) {
        spec_trim_start(s.drop_first())
    } else {
        s
    }
}

/// The text with its whitespace suffix removed.
pub open spec fn spec_trim_end(s: Seq<char>) -> Seq<char>
    decreases s.len(),
{
    if s.len() > 0 && spec_is_whitespace(s.last()) {
        spec_trim_end(s.drop_last())
    } else {
        s
    }
}

/// The text with both its whitespace prefix and suffix removed.
pub open spec fn spec_trim(s: Seq<char>) -> Seq<char> {
    spec_trim_end(spec_trim_start(s))
}

/// Removing the whitespace prefix keeps the suffix that starts at the first
/// non-whitespace position.
proof fn lemma_trim_start_at(s: Seq<char>, i: int)
    requires
        0 <= i <= s.len(),
        forall|m: int| 0 <= m < i ==> spec_is_whitespace(s[m]),
        i == s.len() || !spec_is_whitespace(s[i]),
    ensures
        spec_trim_start(s) == s.subrange(i, s.len() as int),
    decreases i,
{
    if i == 0 {
        assert(s.subrange(0, s.len() as int) =~= s);
    } else {
        lemma_trim_start_at(s.drop_first(), i - 1);
        assert(s.drop_first().subrange(i - 1, s.drop_first().len() as int) =~= s.subrange(
            i,
            s.len() as int,
        ));
    }
}

/// Removing the whitespace suffix keeps the prefix that ends after the last
/// non-whitespace position.
proof fn lemma_trim_end_at(s: Seq<char>, j: int)
    requires
        0 <= j <= s.len(),
        forall|m: int| j <= m < s.len() ==> spec_is_whitespace(s[m]),
        j == 0 || !spec_is_whitespace(s[j - 1]),
    ensures
        spec_trim_end(s) == s.subrange(0, j),
    decreases s.len() - j,
{
    if j == s.len() {
        assert(s.subrange(0, j) =~= s);
    } else {
        lemma_trim_end_at(s.drop_last(), j);
        assert(s.drop_last().subrange(0, j) =~= s.subrange(0, j));
    }
}

/// Drops the longest whitespace prefix and suffix of the text.
pub fn trim_text(s: &str) -> (r: String)
    ensures
        r@ == spec_trim(s@),
{
    let len = s.unicode_len();
    let mut start: usize = 0;
    while start < len && s.get_char(start).is_whitespace()
        invariant
            0 <= start <= len,
            len == s@.len(),
            forall|m: int| 0 <= m < start ==> spec_is_whitespace(s@[m]),
        decreases len - start,
    {
        start += 1;
    }
    let mut end: usize = len;
    while end > start && s.get_char(end - 1).is_whitespace()
        invariant
            start <= end <= len,
            len == s@.len(),
            forall|m: int| end <= m < len ==> spec_is_whitespace(s@[m]),
        decreases end,
    {
        end -= 1;
    }
    let t = s.substring_char(start, end);
    proof {
        lemma_trim_start_at(s@, start as int);
        lemma_trim_end_at(s@.subrange(start as int, len as int), end - start);
        assert(s@.subrange(start as int, len as int).subrange(0, end - start) =~= s@.subrange(
            start as int,
            end as int,
        ));
    }
    String::from_str(t)
}

} // verus!
