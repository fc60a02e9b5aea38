//! Command-line argument handling: mapping an argument vector to a request,
//! and reading a 1-based line number from its decimal text.
//!
//! A line-number argument that is empty, not all digits, or too large for
//! `usize` is read as 0, which every operation then rejects as an invalid
//! line number.

use vstd::prelude::*;
use vstd::string::StrSliceExecFns;
use vstd::string::StringExecFns;

verus! {

/// Whether a character is a decimal digit.
pub open spec fn spec_is_digit(c: char) -> bool {
    '0' <= c && c <= '9'
}

/// The numeric value of a decimal digit character.
pub open spec fn spec_digit_value(c: char) -> nat {
    (c as nat - '0' as nat) as nat
}

/// Whether every character of a text is a decimal digit.
pub open spec fn spec_all_digits(s: Seq<char>) -> bool {
    forall|i: int| 0 <= i < s.len() ==> spec_is_digit(#[trigger] s[i])
}

/// The value of a digit sequence read as a decimal numeral.
pub open spec fn spec_decimal_value(s: Seq<char>) -> nat
    decreases s.len(),
{
    if s.len() == 0 {
        0
    } else {
        spec_decimal_value(s.drop_last()) * 10 + spec_digit_value(s.last())
    }
}

/// The line number read from an argument: its decimal value where the text
/// is a nonempty digit string whose value fits in `usize`, and 0 otherwise.
pub open spec fn spec_parse_line_number(s: Seq<char>) -> nat {
    if s.len() > 0 && spec_all_digits(s) && spec_decimal_value(s) <= usize::MAX {
        spec_decimal_value(s)
    } else {
        0
    }
}

/// A longer all-digit numeral is worth at least as much as any of its prefixes.
proof fn lemma_decimal_prefix_le(s: Seq<char>, j: int)
    requires
        spec_all_digits(s),
        0 <= j <= s.len(),
    ensures
        spec_decimal_value(s.take(j)) <= spec_decimal_value(s),
    decreases s.len(),
{
    if j < s.len() {
        assert(s.take(j) =~= s.drop_last().take(j));
        lemma_decimal_prefix_le(s.drop_last(), j);
    } else {
        assert(s.take(j) =~= s);
    }
}

/// Reads a 1-based line number from its decimal text, with 0 standing in for
/// anything unreadable, as [`spec_parse_line_number`] states.
pub fn parse_line_number(s: &str) -> (n: usize)
    ensures
        n == spec_parse_line_number(s@),
{
    let len = s.unicode_len();
    if len == 0 {
        return 0;
    }
    let mut acc: usize = 0;
    let mut i: usize = 0;
    while i < len
        invariant
            0 < len == s@.len(),
            0 <= i <= len,
            forall|j: int| 0 <= j < i ==> spec_is_digit(#[trigger] s@[j]),
            acc == spec_decimal_value(s@.take(i as int)),
        decreases len - i,
    {
        let c = s.get_char(i);
        if c < '0' || c > '9' {
            return 0;
        }
        let d: usize = (c as u32 - '0' as u32) as usize;
        assert(s@.take(i + 1).drop_last() =~= s@.take(i as int));
        let next = match acc.checked_mul(10) {
            Some(m) => m.checked_add(d),
            None => None,
        };
        match next {
            Some(v) => {
                acc = v;
            },
            None => {
                proof {
                    if spec_all_digits(s@) {
                        lemma_decimal_prefix_le(s@, i + 1);
                    }
                }
                return 0;
            },
        }
        i += 1;
    }
    proof {
        assert(s@.take(len as int) =~= s@);
    }
    acc
}

/// One operation asked for on the command line.
#[derive(Debug)]
pub enum Request {
    /// Append an entry with this title to the named list.
    Add { title: String, file: String },
    /// Remove the line at this 1-based position from the named list.
    Remove { line_number: usize, file: String },
    /// Delete the named list as a whole.
    RemoveFile { file: String },
    /// Mark the line at this 1-based position in the named list.
    Check { line_number: usize, file: String },
    /// Print every line of the named list.
    Show { file: String },
    /// Print the names of all lists.
    List,
    /// Print the version banner.
    Version,
}

/// A rejected argument vector: no command, an unknown one, or too few
/// arguments for the chosen command.
#[derive(Debug)]
pub enum CliError {
    MissingCommand,
    UnknownCommand(String),
    AddUsage,
    RemoveUsage,
    RemoveFileUsage,
    RemoveLineUsage,
    CheckUsage,
    ShowUsage,
}

impl CliError {
    /// The message printed for this rejection.
    pub fn message(&self) -> (r: String)
        ensures
            r@ == match self {
                CliError::MissingCommand => "Usage: sftm <command> [args...]"@,
                CliError::UnknownCommand(cmd) => "Unknown command: "@ + cmd@,
                CliError::AddUsage => "Usage: sftm add <todo> <file>"@,
                CliError::RemoveUsage => "Usage: sftm remove [-f] <line_number/filename> [file]"@,
                CliError::RemoveFileUsage => "Usage: sftm remove -f <filename>"@,
                CliError::RemoveLineUsage => "Usage: sftm remove <line_number> <file>"@,
                CliError::CheckUsage => "Usage: sftm check <line_number> <file>"@,
                CliError::ShowUsage => "Usage: sftm show <file>"@,
            },
    {
        match self {
            CliError::MissingCommand => String::from_str("Usage: sftm <command> [args...]"),
            CliError::UnknownCommand(cmd) => String::from_str("Unknown command: ").concat(
                cmd.as_str(),
            ),
            CliError::AddUsage => String::from_str("Usage: sftm add <todo> <file>"),
            CliError::RemoveUsage => String::from_str(
                "Usage: sftm remove [-f] <line_number/filename> [file]",
            ),
            CliError::RemoveFileUsage => String::from_str("Usage: sftm remove -f <filename>"),
            CliError::RemoveLineUsage => String::from_str("Usage: sftm remove <line_number> <file>"),
            CliError::CheckUsage => String::from_str("Usage: sftm check <line_number> <file>"),
            CliError::ShowUsage => String::from_str("Usage: sftm show <file>"),
        }
    }
}

/// Whether a string's text equals a literal's.
fn string_is(s: &String, lit: &str) -> (r: bool)
    ensures
        r == (s@ == lit@),
{
    s.eq(&String::from_str(lit))
}

/// The request read from an `add` command's arguments.
fn parse_add(args: &Vec<String>) -> (r: Result<Request, CliError>)
    ensures
        if args@.len() < 4 {
            r matches Err(e) && e matches CliError::AddUsage
        } else {
            r matches Ok(q) && q matches Request::Add { title, file } && title@ == args@[2]@
                && file@ == args@[3]@
        },
{
    if args.len() < 4 {
        Err(CliError::AddUsage)
    } else {
        Ok(Request::Add { title: args[2].clone(), file: args[3].clone() })
    }
}

/// The request read from a `remove` command's arguments: a whole-file
/// deletion after `-f`, a single-line removal otherwise.
fn parse_remove(args: &Vec<String>) -> (r: Result<Request, CliError>)
    ensures
        if args@.len() < 3 {
            r matches Err(e) && e matches CliError::RemoveUsage
        } else if args@[2]@ == "-f"@ {
            if args@.len() < 4 {
                r matches Err(e) && e matches CliError::RemoveFileUsage
            } else {
                r matches Ok(q) && q matches Request::RemoveFile { file } && file@ == args@[3]@
            }
        } else {
            if args@.len() < 4 {
                r matches Err(e) && e matches CliError::RemoveLineUsage
            } else {
                r matches Ok(q) && q matches Request::Remove { line_number, file } && line_number
                    == spec_parse_line_number(args@[2]@) && file@ == args@[3]@
            }
        },
{
    if args.len() < 3 {
        Err(CliError::RemoveUsage)
    } else if string_is(&args[2], "-f") {
        if args.len() < 4 {
            Err(CliError::RemoveFileUsage)
        } else {
            Ok(Request::RemoveFile { file: args[3].clone() })
        }
    } else {
        if args.len() < 4 {
            Err(CliError::RemoveLineUsage)
        } else {
            Ok(
                Request::Remove {
                    line_number: parse_line_number(args[2].as_str()),
                    file: args[3].clone(),
                },
            )
        }
    }
}

/// The request read from a `check` command's arguments.
fn parse_check(args: &Vec<String>) -> (r: Result<Request, CliError>)
    ensures
        if args@.len() < 4 {
            r matches Err(e) && e matches CliError::CheckUsage
        } else {
            r matches Ok(q) && q matches Request::Check { line_number, file } && line_number
                == spec_parse_line_number(args@[2]@) && file@ == args@[3]@
        },
{
    if args.len() < 4 {
        Err(CliError::CheckUsage)
    } else {
        Ok(
            Request::Check {
                line_number: parse_line_number(args[2].as_str()),
                file: args[3].clone(),
            },
        )
    }
}

/// The request read from a `show` command's arguments.
fn parse_show(args: &Vec<String>) -> (r: Result<Request, CliError>)
    ensures
        if args@.len() < 3 {
            r matches Err(e) && e matches CliError::ShowUsage
        } else {
            r matches Ok(q) && q matches Request::Show { file } && file@ == args@[2]@
        },
{
    if args.len() < 3 {
        Err(CliError::ShowUsage)
    } else {
        Ok(Request::Show { file: args[2].clone() })
    }
}

/// Maps an argument vector (program name first) to the request it asks for.
///
/// The command word is the second argument; each command checks its own
/// argument count and otherwise rejects the vector with its usage message.
/// Line numbers are read as [`spec_parse_line_number`] states.
pub fn parse_args(args: &Vec<String>) -> (r: Result<Request, CliError>)
    ensures
        args@.len() < 2 ==> (r matches Err(e) && e matches CliError::MissingCommand),
        args@.len() >= 2 && args@[1]@ == "add"@ ==> if args@.len() < 4 {
            r matches Err(e) && e matches CliError::AddUsage
        } else {
            r matches Ok(q) && q matches Request::Add { title, file } && title@ == args@[2]@
                && file@ == args@[3]@
        },
        args@.len() >= 2 && args@[1]@ == "remove"@ ==> if args@.len() < 3 {
            r matches Err(e) && e matches CliError::RemoveUsage
        } else if args@[2]@ == "-f"@ {
            if args@.len() < 4 {
                r matches Err(e) && e matches CliError::RemoveFileUsage
            } else {
                r matches Ok(q) && q matches Request::RemoveFile { file } && file@ == args@[3]@
            }
        } else {
            if args@.len() < 4 {
                r matches Err(e) && e matches CliError::RemoveLineUsage
            } else {
                r matches Ok(q) && q matches Request::Remove { line_number, file } && line_number
                    == spec_parse_line_number(args@[2]@) && file@ == args@[3]@
            }
        },
        args@.len() >= 2 && args@[1]@ == "check"@ ==> if args@.len() < 4 {
            r matches Err(e) && e matches CliError::CheckUsage
        } else {
            r matches Ok(q) && q matches Request::Check { line_number, file } && line_number
                == spec_parse_line_number(args@[2]@) && file@ == args@[3]@
        },
        args@.len() >= 2 && args@[1]@ == "show"@ ==> if args@.len() < 3 {
            r matches Err(e) && e matches CliError::ShowUsage
        } else {
            r matches Ok(q) && q matches Request::Show { file } && file@ == args@[2]@
        },
        args@.len() >= 2 && args@[1]@ == "list"@ ==> (r matches Ok(q) && q matches Request::List),
        args@.len() >= 2 && args@[1]@ == "version"@ ==> (r matches Ok(q) && q
            matches Request::Version),
        args@.len() >= 2 && args@[1]@ != "add"@ && args@[1]@ != "remove"@ && args@[1]@ != "check"@
            && args@[1]@ != "show"@ && args@[1]@ != "list"@ && args@[1]@ != "version"@ ==> (r
            matches Err(e) && e matches CliError::UnknownCommand(cmd) && cmd@ == args@[1]@),
{
    proof {
        reveal_strlit("add");
        reveal_strlit("remove");
        reveal_strlit("check");
        reveal_strlit("show");
        reveal_strlit("list");
        reveal_strlit("version");
        assert("add"@.len() == 3);
        assert("remove"@.len() == 6);
        assert("check"@.len() == 5);
        assert("show"@.len() == 4);
        assert("list"@.len() == 4);
        assert("version"@.len() == 7);
        assert("show"@[0] == 's' && "list"@[0] == 'l');
    }
    if args.len() < 2 {
        return Err(CliError::MissingCommand);
    }
    if string_is(&args[1], "add") {
        parse_add(args)
    } else if string_is(&args[1], "remove") {
        parse_remove(args)
    } else if string_is(&args[1], "check") {
        parse_check(args)
    } else if string_is(&args[1], "show") {
        parse_show(args)
    } else if string_is(&args[1], "list") {
        Ok(Request::List)
    } else if string_is(&args[1], "version") {
        Ok(Request::Version)
    } else {
        Err(CliError::UnknownCommand(args[1].clone()))
    }
}

} // verus!

