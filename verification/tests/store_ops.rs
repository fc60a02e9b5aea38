use sftm::entry::format_entry;
use sftm::entry::is_checked_line;
use sftm::entry::mark_line;
use sftm::lines::check_at;
use sftm::lines::remove_at;
use sftm::lines::CheckOutcome;
use sftm::store::TodoError;
use sftm::store::TodoStore;
use sftm::text::trim_text;

fn shown(store: &TodoStore, file: &str) -> Vec<String> {
    store.show(&String::from(file)).unwrap()
}

#[test]
fn format_entry_joins_title_and_description() {
    assert_eq!(format_entry("buy milk", "two litres"), "buy milk - two litres");
    assert_eq!(format_entry("", ""), " - ");
}

#[test]
fn mark_line_prefixes_the_marker() {
    assert_eq!(mark_line("buy milk - two litres"), "✅ buy milk - two litres");
}

#[test]
fn is_checked_line_looks_at_the_first_glyph() {
    assert!(!is_checked_line(""));
    assert!(!is_checked_line("buy milk - two litres"));
    assert!(is_checked_line("✅ buy milk - two litres"));
}

#[test]
fn add_then_show_displays_the_pair_unchecked() {
    let mut store = TodoStore::new();
    store.add("buy milk", "two litres", &String::from("groceries"));
    let lines = shown(&store, "groceries");
    assert_eq!(lines, vec![String::from("buy milk - two litres")]);
    assert!(!is_checked_line(&lines[0]));
}

#[test]
fn check_rejects_invalid_line_numbers_and_changes_nothing() {
    let mut store = TodoStore::new();
    let file = String::from("groceries");
    store.add("buy milk", "two litres", &file);
    assert_eq!(store.check(0, &file), Err(TodoError::InvalidLineNumber));
    assert_eq!(store.check(2, &file), Err(TodoError::InvalidLineNumber));
    assert_eq!(shown(&store, "groceries"), vec![String::from("buy milk - two litres")]);
}

#[test]
fn check_on_a_missing_file_reports_not_found() {
    let mut store = TodoStore::new();
    assert_eq!(store.check(1, &String::from("nowhere")), Err(TodoError::FileNotFound));
}

#[test]
fn check_marks_a_line_and_is_idempotent() {
    let mut store = TodoStore::new();
    let file = String::from("groceries");
    store.add("buy milk", "two litres", &file);
    assert_eq!(store.check(1, &file), Ok(CheckOutcome::CheckedOff));
    assert_eq!(shown(&store, "groceries"), vec![String::from("✅ buy milk - two litres")]);
    assert_eq!(store.check(1, &file), Ok(CheckOutcome::AlreadyChecked));
    assert_eq!(shown(&store, "groceries"), vec![String::from("✅ buy milk - two litres")]);
}

#[test]
fn remove_shifts_later_lines_up_by_one() {
    let mut store = TodoStore::new();
    let file = String::from("tasks");
    store.add("one", "first", &file);
    store.add("two", "second", &file);
    store.add("three", "third", &file);
    assert_eq!(store.remove_line(2, &file), Ok(()));
    let lines = shown(&store, "tasks");
    assert_eq!(lines.len(), 2);
    assert_eq!(lines[0], "one - first");
    assert_eq!(lines[1], "three - third");
}

#[test]
fn remove_rejects_invalid_line_numbers() {
    let mut store = TodoStore::new();
    let file = String::from("tasks");
    store.add("one", "first", &file);
    assert_eq!(store.remove_line(0, &file), Err(TodoError::InvalidLineNumber));
    assert_eq!(store.remove_line(2, &file), Err(TodoError::InvalidLineNumber));
    assert_eq!(store.remove_line(1, &String::from("elsewhere")), Err(TodoError::FileNotFound));
    assert_eq!(shown(&store, "tasks"), vec![String::from("one - first")]);
}

#[test]
fn remove_file_then_show_reports_not_found() {
    let mut store = TodoStore::new();
    let file = String::from("tasks");
    store.add("one", "first", &file);
    assert_eq!(store.remove_file(&file), Ok(()));
    assert_eq!(store.show(&file), Err(TodoError::FileNotFound));
    assert_eq!(store.remove_file(&file), Err(TodoError::FileNotFound));
}

#[test]
fn list_names_every_file_exactly_once() {
    let mut store = TodoStore::new();
    assert_eq!(store.list(), Vec::<String>::new());
    store.add("one", "first", &String::from("tasks"));
    store.add("milk", "two litres", &String::from("groceries"));
    store.add("two", "second", &String::from("tasks"));
    let mut names = store.list();
    names.sort();
    assert_eq!(names, vec![String::from("groceries"), String::from("tasks")]);
}

#[test]
fn round_trip_keeps_all_lines_in_order() {
    let mut store = TodoStore::new();
    let file = String::from("tasks");
    let pairs = [("one", "first"), ("two", "second"), ("three", "third"), ("four", "fourth")];
    for (title, desc) in pairs.iter() {
        store.add(title, desc, &file);
    }
    let lines = shown(&store, "tasks");
    assert_eq!(lines.len(), pairs.len());
    for (i, (title, desc)) in pairs.iter().enumerate() {
        assert_eq!(lines[i], format!("{} - {}", title, desc));
    }
}

#[test]
fn check_at_and_remove_at_operate_on_plain_line_vectors() {
    let mut lines = vec![String::from("a - x"), String::from("b - y")];
    assert_eq!(check_at(&mut lines, 0), CheckOutcome::InvalidLineNumber);
    assert_eq!(check_at(&mut lines, 3), CheckOutcome::InvalidLineNumber);
    assert_eq!(check_at(&mut lines, 2), CheckOutcome::CheckedOff);
    assert_eq!(lines, vec![String::from("a - x"), String::from("✅ b - y")]);
    assert_eq!(check_at(&mut lines, 2), CheckOutcome::AlreadyChecked);
    assert_eq!(lines, vec![String::from("a - x"), String::from("✅ b - y")]);
    assert!(!remove_at(&mut lines, 0));
    assert!(!remove_at(&mut lines, 3));
    assert!(remove_at(&mut lines, 1));
    assert_eq!(lines, vec![String::from("✅ b - y")]);
}

#[test]
fn empty_titles_and_descriptions_are_stored_as_given() {
    let mut store = TodoStore::new();
    let file = String::from("odd");
    store.add("", "", &file);
    assert_eq!(shown(&store, "odd"), vec![String::from(" - ")]);
}

#[test]
fn trim_text_drops_surrounding_whitespace_only() {
    assert_eq!(trim_text("  two litres \n"), "two litres");
    assert_eq!(trim_text("\t a b \t"), "a b");
    assert_eq!(trim_text(" \n\t"), "");
    assert_eq!(trim_text(""), "");
    assert_eq!(trim_text("plain"), "plain");
}

#[test]
fn a_title_starting_with_the_marker_reads_back_as_checked() {
    let mut store = TodoStore::new();
    let file = String::from("odd");
    store.add("✅ sneaky", "x", &file);
    let lines = shown(&store, "odd");
    assert_eq!(lines, vec![String::from("✅ sneaky - x")]);
    assert!(is_checked_line(&lines[0]));
}
