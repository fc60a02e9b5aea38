//! The todo store: a collection of named todo lists, each an ordered
//! sequence of lines. Its mathematical content is a map from list name to
//! line sequence, and every operation's contract is stated over that map.

use vstd::prelude::*;
use crate::entry::format_entry;
use crate::entry::spec_entry;
use crate::entry::spec_is_checked;
use crate::entry::spec_marked;
use crate::lines::CheckOutcome;
use crate::lines::check_at;
use crate::lines::lines_view;
use crate::lines::remove_at;
use crate::lines::valid_line_number;

verus! {

/// One named todo list: its name and its lines in order.
pub struct TodoFile {
    pub name: String,
    pub lines: Vec<String>,
}

impl TodoFile {
    /// The lines as character sequences, in file order.
    pub open spec fn contents(&self) -> Seq<Seq<char>> {
        lines_view(self.lines@)
    }
}

/// A failed store operation: the named list does not exist, or the 1-based
/// line number is 0 or above the list's current line count.
#[derive(Clone, Copy, Debug, PartialEq, Eq, Structural)]
pub enum TodoError {
    FileNotFound,
    InvalidLineNumber,
}

/// No two lists of the sequence carry the same name.
pub open spec fn distinct_names(files: Seq<TodoFile>) -> bool {
    forall|i: int, j: int|
        0 <= i < j < files.len() ==> files[i].name@ != files[j].name@
}

/// The map from list name to line sequence that a sequence of lists holds.
pub open spec fn files_map(files: Seq<TodoFile>) -> Map<Seq<char>, Seq<Seq<char>>>
    decreases files.len(),
{
    if files.len() == 0 {
        Map::empty()
    } else {
        files_map(files.drop_last()).insert(files.last().name@, files.last().contents())
    }
}

/// Under distinct names, each list's name maps exactly to its contents.
proof fn lemma_files_map_index(files: Seq<TodoFile>, i: int)
    requires
        distinct_names(files),
        0 <= i < files.len(),
    ensures
        files_map(files).contains_key(files[i].name@),
        files_map(files)[files[i].name@] == files[i].contents(),
    decreases files.len(),
{
    if i < files.len() - 1 {
        lemma_files_map_index(files.drop_last(), i);
    }
}

/// A name carried by no list is absent from the map.
proof fn lemma_files_map_absent(files: Seq<TodoFile>, name: Seq<char>)
    requires
        forall|k: int| 0 <= k < files.len() ==> files[k].name@ != name,
    ensures
        !files_map(files).contains_key(name),
    decreases files.len(),
{
    if files.len() > 0 {
        lemma_files_map_absent(files.drop_last(), name);
    }
}

/// Replacing one list by another of the same name updates its map entry.
proof fn lemma_files_map_update(files: Seq<TodoFile>, i: int, tf: TodoFile)
    requires
        distinct_names(files),
        0 <= i < files.len(),
        tf.name@ == files[i].name@,
    ensures
        files_map(files.update(i, tf)) == files_map(files).insert(tf.name@, tf.contents()),
    decreases files.len(),
{
    let upd = files.update(i, tf);
    if i == files.len() - 1 {
        assert(upd.drop_last() =~= files.drop_last());
        assert(files_map(files.drop_last()).insert(files[i].name@, files[i].contents()).insert(
            tf.name@,
            tf.contents(),
        ) =~= files_map(files.drop_last()).insert(tf.name@, tf.contents()));
    } else {
        assert(upd.drop_last() =~= files.drop_last().update(i, tf));
        assert(upd.last() == files.last());
        lemma_files_map_update(files.drop_last(), i, tf);
        assert(files[i].name@ != files.last().name@);
        assert(files_map(files.drop_last()).insert(tf.name@, tf.contents()).insert(
            files.last().name@,
            files.last().contents(),
        ) =~= files_map(files.drop_last()).insert(
            files.last().name@,
            files.last().contents(),
        ).insert(tf.name@, tf.contents()));
    }
}

/// Appending a list with a fresh name adds its map entry.
proof fn lemma_files_map_push(files: Seq<TodoFile>, tf: TodoFile)
    ensures
        files_map(files.push(tf)) == files_map(files).insert(tf.name@, tf.contents()),
{
    assert(files.push(tf).drop_last() =~= files);
    assert(files.push(tf).last() == tf);
}

/// Dropping one list removes exactly its entry from the map.
proof fn lemma_files_map_remove(files: Seq<TodoFile>, i: int)
    requires
        distinct_names(files),
        0 <= i < files.len(),
    ensures
        files_map(files.remove(i)) == files_map(files).remove(files[i].name@),
    decreases files.len(),
{
    let rem = files.remove(i);
    if i == files.len() - 1 {
        assert(rem =~= files.drop_last());
        lemma_files_map_absent(files.drop_last(), files[i].name@);
        assert(files_map(files).remove(files[i].name@) =~= files_map(files.drop_last()));
    } else {
        assert(rem.drop_last() =~= files.drop_last().remove(i));
        assert(rem.last() == files.last());
        lemma_files_map_remove(files.drop_last(), i);
        assert(files[i].name@ != files.last().name@);
        assert(files_map(files.drop_last()).remove(files[i].name@).insert(
            files.last().name@,
            files.last().contents(),
        ) =~= files_map(files.drop_last()).insert(
            files.last().name@,
            files.last().contents(),
        ).remove(files[i].name@));
    }
}

/// What `add` does to the store map: the entry line goes to the end of the
/// named list, which starts empty if the name is new.
pub open spec fn spec_add(
    m: Map<Seq<char>, Seq<Seq<char>>>,
    name: Seq<char>,
    line: Seq<char>,
) -> Map<Seq<char>, Seq<Seq<char>>> {
    m.insert(
        name,
        (if m.contains_key(name) {
            m[name]
        } else {
            Seq::empty()
        }).push(line),
    )
}

/// The todo store. Its view is the map from list name to line sequence;
/// `wf` (no two lists share a name) is established by `new` and preserved
/// by every operation.
pub struct TodoStore {
    pub files: Vec<TodoFile>,
}

impl View for TodoStore {
    type V = Map<Seq<char>, Seq<Seq<char>>>;

    open spec fn view(&self) -> Map<Seq<char>, Seq<Seq<char>>> {
        files_map(self.files@)
    }
}

impl TodoStore {
    /// The store's invariant: list names are pairwise distinct.
    pub open spec fn wf(&self) -> bool {
        distinct_names(self.files@)
    }

    /// An empty store: no lists at all.
    pub fn new() -> (r: TodoStore)
        ensures
            r.wf(),
            r@ == Map::<Seq<char>, Seq<Seq<char>>>::empty(),
    {
        TodoStore { files: Vec::new() }
    }

    /// The position of the named list, if it exists.
    fn find_index(&self, file: &String) -> (r: Option<usize>)
        ensures
            match r {
                Some(i) => i < self.files@.len() && self.files@[i as int].name@ == file@,
                None => forall|k: int| 0 <= k < self.files@.len() ==> self.files@[k].name@ != file@,
            },
    {
        let mut i: usize = 0;
        while i < self.files.len()
            invariant
                i <= self.files@.len(),
                forall|k: int| 0 <= k < i ==> self.files@[k].name@ != file@,
            decreases self.files@.len() - i,
        {
            if self.files[i].name.eq(file) {
                return Some(i);
            }
            i += 1;
        }
        None
    }

    /// Appends the entry `<title> - <description>` to the named list,
    /// creating the list when the name is new.
    pub fn add(&mut self, title: &str, desc: &str, file: &String)
        requires
            old(self).wf(),
        ensures
            final(self).wf(),
            final(self)@ == spec_add(old(self)@, file@, spec_entry(title@, desc@)),
    {
        let line = format_entry(title, desc);
        match self.find_index(file) {
            Some(i) => {
                proof {
                    lemma_files_map_index(self.files@, i as int);
                }
                let mut tf = self.files.remove(i);
                tf.lines.push(line);
                self.files.insert(i, tf);
                proof {
                    assert(self.files@ =~= old(self).files@.update(
                        i as int,
                        self.files@[i as int],
                    ));
                    assert(self.files@[i as int].contents() =~= old(self).files@[
                        i as int
                    ].contents().push(spec_entry(title@, desc@)));
                    lemma_files_map_update(old(self).files@, i as int, self.files@[i as int]);
                }
            },
            None => {
                proof {
                    lemma_files_map_absent(self.files@, file@);
                }
                let mut new_lines: Vec<String> = Vec::new();
                new_lines.push(line);
                let tf = TodoFile { name: file.clone(), lines: new_lines };
                proof {
                    assert(tf.contents() =~= Seq::<Seq<char>>::empty().push(
                        spec_entry(title@, desc@),
                    ));
                    lemma_files_map_push(self.files@, tf);
                }
                self.files.push(tf);
            },
        }
    }

    /// Marks the line at the 1-based position of the named list as checked
    /// off. A missing list or an out-of-range position changes nothing and
    /// reports which of the two failed; an already-checked line also stays
    /// exactly as it is.
    pub fn check(&mut self, line_number: usize, file: &String) -> (r: Result<
        CheckOutcome,
        TodoError,
    >)
        requires
            old(self).wf(),
        ensures
            final(self).wf(),
            !old(self)@.contains_key(file@) ==> r == Err::<CheckOutcome, TodoError>(
                TodoError::FileNotFound,
            ) && final(self)@ == old(self)@,
            old(self)@.contains_key(file@) && !valid_line_number(
                line_number,
                old(self)@[file@].len(),
            ) ==> r == Err::<CheckOutcome, TodoError>(TodoError::InvalidLineNumber) && final(self)@
                == old(self)@,
            old(self)@.contains_key(file@) && valid_line_number(
                line_number,
                old(self)@[file@].len(),
            ) && spec_is_checked(old(self)@[file@][line_number - 1]) ==> r == Ok::<
                CheckOutcome,
                TodoError,
            >(CheckOutcome::AlreadyChecked) && final(self)@ == old(self)@,
            old(self)@.contains_key(file@) && valid_line_number(
                line_number,
                old(self)@[file@].len(),
            ) && !spec_is_checked(old(self)@[file@][line_number - 1]) ==> r == Ok::<
                CheckOutcome,
                TodoError,
            >(CheckOutcome::CheckedOff) && final(self)@ == old(self)@.insert(
                file@,
                old(self)@[file@].update(
                    line_number - 1,
                    spec_marked(old(self)@[file@][line_number - 1]),
                ),
            ),
    {
        match self.find_index(file) {
            None => {
                proof {
                    lemma_files_map_absent(self.files@, file@);
                }
                Err(TodoError::FileNotFound)
            },
            Some(i) => {
                proof {
                    lemma_files_map_index(self.files@, i as int);
                }
                let mut tf = self.files.remove(i);
                let outcome = check_at(&mut tf.lines, line_number);
                self.files.insert(i, tf);
                proof {
                    assert(self.files@ =~= old(self).files@.update(
                        i as int,
                        self.files@[i as int],
                    ));
                    lemma_files_map_update(old(self).files@, i as int, self.files@[i as int]);
                    if outcome == CheckOutcome::CheckedOff {
                        assert(self.files@[i as int].contents() =~= old(self)@[file@].update(
                            line_number - 1,
                            spec_marked(old(self)@[file@][line_number - 1]),
                        ));
                    } else {
                        assert(self.files@[i as int].contents() =~= old(self)@[file@]);
                        assert(final(self)@ =~= old(self)@);
                    }
                }
                match outcome {
                    CheckOutcome::InvalidLineNumber => Err(TodoError::InvalidLineNumber),
                    CheckOutcome::AlreadyChecked => Ok(CheckOutcome::AlreadyChecked),
                    CheckOutcome::CheckedOff => Ok(CheckOutcome::CheckedOff),
                }
            },
        }
    }

    /// Deletes the line at the 1-based position of the named list; every
    /// later line moves up by one place. A missing list or an out-of-range
    /// position changes nothing and reports which of the two failed.
    pub fn remove_line(&mut self, line_number: usize, file: &String) -> (r: Result<
        (),
        TodoError,
    >)
        requires
            old(self).wf(),
        ensures
            final(self).wf(),
            !old(self)@.contains_key(file@) ==> r == Err::<(), TodoError>(TodoError::FileNotFound)
                && final(self)@ == old(self)@,
            old(self)@.contains_key(file@) && !valid_line_number(
                line_number,
                old(self)@[file@].len(),
            ) ==> r == Err::<(), TodoError>(TodoError::InvalidLineNumber) && final(self)@ == old(
                self,
            )@,
            old(self)@.contains_key(file@) && valid_line_number(
                line_number,
                old(self)@[file@].len(),
            ) ==> r == Ok::<(), TodoError>(()) && final(self)@ == old(self)@.insert(
                file@,
                old(self)@[file@].remove(line_number - 1),
            ),
    {
        match self.find_index(file) {
            None => {
                proof {
                    lemma_files_map_absent(self.files@, file@);
                }
                Err(TodoError::FileNotFound)
            },
            Some(i) => {
                proof {
                    lemma_files_map_index(self.files@, i as int);
                }
                let mut tf = self.files.remove(i);
                let ok = remove_at(&mut tf.lines, line_number);
                self.files.insert(i, tf);
                proof {
                    assert(self.files@ =~= old(self).files@.update(
                        i as int,
                        self.files@[i as int],
                    ));
                    lemma_files_map_update(old(self).files@, i as int, self.files@[i as int]);
                    if ok {
                        assert(self.files@[i as int].contents() =~= old(self)@[file@].remove(
                            line_number - 1,
                        ));
                    } else {
                        assert(self.files@[i as int].contents() =~= old(self)@[file@]);
                        assert(final(self)@ =~= old(self)@);
                    }
                }
                if ok {
                    Ok(())
                } else {
                    Err(TodoError::InvalidLineNumber)
                }
            },
        }
    }

    /// Deletes the named list as a whole; a missing list is reported.
    pub fn remove_file(&mut self, file: &String) -> (r: Result<(), TodoError>)
        requires
            old(self).wf(),
        ensures
            final(self).wf(),
            !old(self)@.contains_key(file@) ==> r == Err::<(), TodoError>(TodoError::FileNotFound)
                && final(self)@ == old(self)@,
            old(self)@.contains_key(file@) ==> r == Ok::<(), TodoError>(()) && final(self)@ == old(
                self,
            )@.remove(file@),
    {
        match self.find_index(file) {
            None => {
                proof {
                    lemma_files_map_absent(self.files@, file@);
                }
                Err(TodoError::FileNotFound)
            },
            Some(i) => {
                proof {
                    lemma_files_map_index(self.files@, i as int);
                    lemma_files_map_remove(self.files@, i as int);
                }
                self.files.remove(i);
                proof {
                    assert forall|a: int, b: int|
                        0 <= a < b < self.files@.len() implies self.files@[a].name@
                        != self.files@[b].name@ by {
                        assert(self.files@[a] == if a < i as int {
                            old(self).files@[a]
                        } else {
                            old(self).files@[a + 1]
                        });
                        assert(self.files@[b] == if b < i as int {
                            old(self).files@[b]
                        } else {
                            old(self).files@[b + 1]
                        });
                    }
                }
                Ok(())
            },
        }
    }

    /// The lines of the named list, in file order; a missing list is
    /// reported.
    pub fn show(&self, file: &String) -> (r: Result<Vec<String>, TodoError>)
        requires
            self.wf(),
        ensures
            self@.contains_key(file@) ==> (r matches Ok(v) && lines_view(v@) == self@[file@]),
            !self@.contains_key(file@) ==> r == Err::<Vec<String>, TodoError>(
                TodoError::FileNotFound,
            ),
    {
        match self.find_index(file) {
            None => {
                proof {
                    lemma_files_map_absent(self.files@, file@);
                }
                Err(TodoError::FileNotFound)
            },
            Some(i) => {
                proof {
                    lemma_files_map_index(self.files@, i as int);
                }
                let source = &self.files[i].lines;
                let mut out: Vec<String> = Vec::new();
                let mut k: usize = 0;
                while k < source.len()
                    invariant
                        k <= source@.len(),
                        out@.len() == k,
                        forall|j: int| 0 <= j < k ==> out@[j]@ == source@[j]@,
                    decreases source@.len() - k,
                {
                    out.push(source[k].clone());
                    k += 1;
                }
                proof {
                    assert(lines_view(out@) =~= self.files@[i as int].contents());
                }
                Ok(out)
            },
        }
    }

    /// The names of all lists, each exactly once; together they are the
    /// domain of the store map.
    pub fn list(&self) -> (r: Vec<String>)
        requires
            self.wf(),
        ensures
            forall|i: int| 0 <= i < r@.len() ==> self@.contains_key(#[trigger] r@[i]@),
            forall|n: Seq<char>|
                #[trigger] self@.contains_key(n) ==> exists|i: int|
                    0 <= i < r@.len() && #[trigger] r@[i]@ == n,
            forall|i: int, j: int| 0 <= i < j < r@.len() ==> r@[i]@ != r@[j]@,
    {
        let mut out: Vec<String> = Vec::new();
        let mut k: usize = 0;
        while k < self.files.len()
            invariant
                k <= self.files@.len(),
                out@.len() == k,
                forall|j: int| 0 <= j < k ==> out@[j]@ == self.files@[j].name@,
            decreases self.files@.len() - k,
        {
            out.push(self.files[k].name.clone());
            k += 1;
        }
        proof {
            assert forall|i: int| 0 <= i < out@.len() implies self@.contains_key(
                #[trigger] out@[i]@,
            ) by {
                lemma_files_map_index(self.files@, i);
            }
            assert forall|n: Seq<char>| #[trigger] self@.contains_key(n) implies exists|i: int|
                0 <= i < out@.len() && #[trigger] out@[i]@ == n by {
                if forall|c: int| 0 <= c < self.files@.len() ==> (#[trigger] self.files@[c].name@)
                    != n {
                    lemma_files_map_absent(self.files@, n);
                } else {
                    let c = choose|c: int|
                        0 <= c < self.files@.len() && (#[trigger] self.files@[c].name@) == n;
                    assert(out@[c]@ == n);
                }
            }
        }
        out
    }
}

} // verus!
