use sftm::cli::parse_args;
use sftm::cli::parse_line_number;
use sftm::cli::CliError;
use sftm::cli::Request;
use sftm::paths::file_path;
use sftm::paths::todo_dir_path;

fn args(words: &[&str]) -> Vec<String> {
    words.iter().map(|w| String::from(*w)).collect()
}

#[test]
fn parse_line_number_reads_decimal_digits() {
    assert_eq!(parse_line_number("1"), 1);
    assert_eq!(parse_line_number("42"), 42);
    assert_eq!(parse_line_number("007"), 7);
    assert_eq!(parse_line_number("0"), 0);
}

#[test]
fn parse_line_number_reads_anything_else_as_zero() {
    assert_eq!(parse_line_number(""), 0);
    assert_eq!(parse_line_number("abc"), 0);
    assert_eq!(parse_line_number("12x"), 0);
    assert_eq!(parse_line_number("-3"), 0);
    assert_eq!(parse_line_number("4 2"), 0);
    assert_eq!(parse_line_number("99999999999999999999999999999999"), 0);
}

#[test]
fn parse_args_reads_each_command() {
    assert!(matches!(
        parse_args(&args(&["sftm", "add", "buy milk", "groceries"])),
        Ok(Request::Add { title, file }) if title == "buy milk" && file == "groceries"
    ));
    assert!(matches!(
        parse_args(&args(&["sftm", "remove", "2", "groceries"])),
        Ok(Request::Remove { line_number: 2, file }) if file == "groceries"
    ));
    assert!(matches!(
        parse_args(&args(&["sftm", "remove", "-f", "groceries"])),
        Ok(Request::RemoveFile { file }) if file == "groceries"
    ));
    assert!(matches!(
        parse_args(&args(&["sftm", "check", "1", "groceries"])),
        Ok(Request::Check { line_number: 1, file }) if file == "groceries"
    ));
    assert!(matches!(
        parse_args(&args(&["sftm", "show", "groceries"])),
        Ok(Request::Show { file }) if file == "groceries"
    ));
    assert!(matches!(parse_args(&args(&["sftm", "list"])), Ok(Request::List)));
    assert!(matches!(parse_args(&args(&["sftm", "version"])), Ok(Request::Version)));
}

#[test]
fn parse_args_reads_an_unparsable_line_number_as_zero() {
    assert!(matches!(
        parse_args(&args(&["sftm", "check", "two", "groceries"])),
        Ok(Request::Check { line_number: 0, file }) if file == "groceries"
    ));
}

#[test]
fn parse_args_rejects_missing_or_unknown_commands() {
    assert!(matches!(parse_args(&args(&["sftm"])), Err(CliError::MissingCommand)));
    assert!(matches!(parse_args(&args(&[])), Err(CliError::MissingCommand)));
    assert!(matches!(
        parse_args(&args(&["sftm", "frobnicate"])),
        Err(CliError::UnknownCommand(cmd)) if cmd == "frobnicate"
    ));
}

#[test]
fn parse_args_rejects_short_argument_vectors() {
    assert!(matches!(parse_args(&args(&["sftm", "add", "x"])), Err(CliError::AddUsage)));
    assert!(matches!(parse_args(&args(&["sftm", "remove"])), Err(CliError::RemoveUsage)));
    assert!(matches!(
        parse_args(&args(&["sftm", "remove", "-f"])),
        Err(CliError::RemoveFileUsage)
    ));
    assert!(matches!(
        parse_args(&args(&["sftm", "remove", "2"])),
        Err(CliError::RemoveLineUsage)
    ));
    assert!(matches!(parse_args(&args(&["sftm", "check", "1"])), Err(CliError::CheckUsage)));
    assert!(matches!(parse_args(&args(&["sftm", "show"])), Err(CliError::ShowUsage)));
}

#[test]
fn usage_messages_match_the_command_surface() {
    assert_eq!(CliError::MissingCommand.message(), "Usage: sftm <command> [args...]");
    assert_eq!(
        CliError::UnknownCommand(String::from("frobnicate")).message(),
        "Unknown command: frobnicate"
    );
    assert_eq!(CliError::AddUsage.message(), "Usage: sftm add <todo> <file>");
    assert_eq!(
        CliError::RemoveUsage.message(),
        "Usage: sftm remove [-f] <line_number/filename> [file]"
    );
    assert_eq!(CliError::RemoveFileUsage.message(), "Usage: sftm remove -f <filename>");
    assert_eq!(CliError::RemoveLineUsage.message(), "Usage: sftm remove <line_number> <file>");
    assert_eq!(CliError::CheckUsage.message(), "Usage: sftm check <line_number> <file>");
    assert_eq!(CliError::ShowUsage.message(), "Usage: sftm show <file>");
}

#[test]
fn paths_are_built_from_the_user_name_and_file_name() {
    assert_eq!(todo_dir_path("alice"), "/home/alice/.sftm/todofiles");
    assert_eq!(
        file_path("/home/alice/.sftm/todofiles", "groceries"),
        "/home/alice/.sftm/todofiles/groceries"
    );
}
