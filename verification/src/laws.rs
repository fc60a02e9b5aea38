//! Laws that relate the store operations to one another, stated over the
//! store map and proved once and for all.

use vstd::prelude::*;
use crate::entry::spec_entry;
use crate::entry::spec_is_checked;
use crate::entry::spec_marked;
use crate::lines::valid_line_number;
use crate::store::spec_add;

verus! {

/// After `add`, `show` displays the entered title/description pair as the
/// new last line, unchecked, with every earlier line untouched.
///
/// The store does not guard titles: one that itself starts with the
/// completion marker glyph would read back as checked, so such titles are
/// left out here.
pub proof fn lemma_add_then_show(
    m: Map<Seq<char>, Seq<Seq<char>>>,
    f: Seq<char>,
    title: Seq<char>,
    desc: Seq<char>,
)
    requires
        title.len() == 0 || title[0] != '✅',
    ensures
        spec_add(m, f, spec_entry(title, desc)).contains_key(f),
        spec_add(m, f, spec_entry(title, desc))[f].last() == spec_entry(title, desc),
        !spec_is_checked(spec_entry(title, desc)),
        spec_add(m, f, spec_entry(title, desc))[f].len() == (if m.contains_key(f) {
            m[f].len() + 1
        } else {
            1
        }),
        forall|i: int|
            0 <= i < spec_add(m, f, spec_entry(title, desc))[f].len() - 1 ==> spec_add(
                m,
                f,
                spec_entry(title, desc),
            )[f][i] == m[f][i],
{
    reveal_strlit(" - ");
    if title.len() == 0 {
        assert(spec_entry(title, desc)[0] == ' ');
    } else {
        assert(spec_entry(title, desc)[0] == title[0]);
    }
}

/// Checking off is idempotent: once `check` has marked a line, the same
/// line number addresses a checked line in a list of unchanged length, so a
/// second `check` reports it as already checked, and its contract then
/// leaves the store exactly as it is — the marker is never doubled.
pub proof fn lemma_check_idempotent(m: Map<Seq<char>, Seq<Seq<char>>>, f: Seq<char>, n: usize)
    requires
        m.contains_key(f),
        valid_line_number(n, m[f].len()),
        !spec_is_checked(m[f][n - 1]),
    ensures
        ({
            let checked = m.insert(f, m[f].update(n - 1, spec_marked(m[f][n - 1])));
            &&& checked.contains_key(f)
            &&& valid_line_number(n, checked[f].len())
            &&& spec_is_checked(checked[f][n - 1])
        }),
{
    reveal_strlit("✅ ");
}

/// After `remove_file` deletes a list, its name is gone from the store map,
/// so `show` on that name reports a missing list.
pub proof fn lemma_remove_file_then_show(m: Map<Seq<char>, Seq<Seq<char>>>, f: Seq<char>)
    ensures
        !m.remove(f).contains_key(f),
{
}

/// The store map after a run of `add` calls on one list, one per entry, in
/// the run's order.
pub open spec fn spec_add_all(
    m: Map<Seq<char>, Seq<Seq<char>>>,
    f: Seq<char>,
    entries: Seq<Seq<char>>,
) -> Map<Seq<char>, Seq<Seq<char>>>
    decreases entries.len(),
{
    if entries.len() == 0 {
        m
    } else {
        spec_add(spec_add_all(m, f, entries.drop_last()), f, entries.last())
    }
}

/// Round trip: a run of `add` calls on one list appends exactly its entries,
/// in order, to whatever the list held before — so on a fresh list, showing
/// it afterwards yields the run's lines, the same count and the same order.
pub proof fn lemma_round_trip(
    m: Map<Seq<char>, Seq<Seq<char>>>,
    f: Seq<char>,
    entries: Seq<Seq<char>>,
)
    requires
        entries.len() > 0,
    ensures
        spec_add_all(m, f, entries).contains_key(f),
        spec_add_all(m, f, entries)[f] == (if m.contains_key(f) {
            m[f]
        } else {
            Seq::empty()
        }) + entries,
    decreases entries.len(),
{
    let base: Seq<Seq<char>> = if m.contains_key(f) {
        m[f]
    } else {
        Seq::empty()
    };
    if entries.len() == 1 {
        assert(spec_add_all(m, f, entries.drop_last()) == m);
        assert(base.push(entries.last()) =~= base + entries);
    } else {
        lemma_round_trip(m, f, entries.drop_last());
        assert((base + entries.drop_last()).push(entries.last()) =~= base + entries);
    }
}

} // verus!
