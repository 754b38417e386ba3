use changegate::coordinator::{AppState, ScanEntry};
use changegate::diff::{deletion_note, package_diff};
use changegate::types::ChangeKind;

#[test]
fn diff_of_single_line_change() {
    let d = package_diff("hello", "hello world");
    assert_eq!(d, "-hello\n+hello world\n");
}

#[test]
fn diff_of_added_line_keeps_context() {
    let d = package_diff("a\nb\nc\n", "a\nb\nc\nd\n");
    assert_eq!(d, " a\n b\n c\n+d\n");
}

#[test]
fn diff_of_fresh_content_is_all_insertions() {
    let d = package_diff("", "one\ntwo\n");
    assert_eq!(d, "+one\n+two\n");
}

#[test]
fn diff_groups_are_separated() {
    // two edits more than two context windows apart give two groups
    let old = "a1\na2\na3\na4\na5\na6\na7\na8\na9\na10\na11\na12\n";
    let new = "x1\na2\na3\na4\na5\na6\na7\na8\na9\na10\na11\nx12\n";
    let d = package_diff(old, new);
    assert!(d.contains("...\n"), "expected an ellipsis between groups, got: {d:?}");
    assert!(d.contains("-a1\n"));
    assert!(d.contains("+x1\n"));
    assert!(d.contains("-a12\n"));
    assert!(d.contains("+x12\n"));
}

#[test]
fn deletion_note_names_the_file() {
    assert_eq!(deletion_note(&"main.txt".to_string()), "File Deleted: main.txt");
}

#[test]
fn queued_change_carries_the_diff_text() {
    let mut state = AppState::new(vec![ScanEntry {
        raw_path: "./main.txt".to_string(),
        canon_path: "/w/main.txt".to_string(),
        content: "hello".to_string(),
    }]);
    state.add_change(
        &"./main.txt".to_string(),
        &"/w/main.txt".to_string(),
        ChangeKind::Modify,
        1000,
        Some("hello world".to_string()),
    );
    let head = state.head().unwrap();
    assert_eq!(head.diff_text, "-hello\n+hello world\n");
    assert_eq!(
        state.file_changes[0].diff.as_deref(),
        Some("-hello\n+hello world\n")
    );
}
