//! The storage location: each user's todo lists live in one fixed directory
//! derived from the user's name, one file per list.

use vstd::prelude::*;
use vstd::string::StringExecFns;

verus! {

/// The per-user directory that holds the todo files.
pub fn todo_dir_path(username: &str) -> (r: String)
    ensures
        r@ == "/home/"@ + username@ + "/.sftm/todofiles"@,
{
    let mut s = String::from_str("/home/");
    s.append(username);
    s.append("/.sftm/todofiles");
    s
}

/// The full path of one named todo file inside a directory.
pub fn file_path(dir: &str, file: &str) -> (r: String)
    ensures
        r@ == dir@ + "/"@ + file@,
{
    let mut s = String::from_str(dir);
    s.append("/");
    s.append(file);
    s
}

} // verus!
