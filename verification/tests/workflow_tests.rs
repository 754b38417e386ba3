use changegate::coordinator::{AppState, ScanEntry};
use changegate::types::{ChangeKind, RevertAction};

fn seeded(entries: &[(&str, &str, &str)]) -> AppState {
    let scan: Vec<ScanEntry> = entries
        .iter()
        .map(|(raw, canon, content)| ScanEntry {
            raw_path: raw.to_string(),
            canon_path: canon.to_string(),
            content: content.to_string(),
        })
        .collect();
    AppState::new(scan)
}

fn cached(state: &AppState, canon: &str) -> Option<String> {
    state.file_cache.get(&canon.to_string()).cloned()
}

#[test]
fn startup_scan_seeds_cache() {
    let state = seeded(&[("./main.txt", "/w/main.txt", "hello")]);
    assert_eq!(cached(&state, "/w/main.txt"), Some("hello".to_string()));
    assert_eq!(state.approval_queue.len(), 0);
    assert!(!state.modal_active);
    assert_eq!(state.file_changes.len(), 0);
}

#[test]
fn startup_scan_skips_noise_directories() {
    let state = seeded(&[
        ("./.git/config", "/w/.git/config", "secret"),
        ("./target/out.o", "/w/target/out.o", "obj"),
        ("./node_modules/p/index.js", "/w/node_modules/p/index.js", "js"),
        ("./src/lib.rs", "/w/src/lib.rs", "code"),
    ]);
    assert_eq!(cached(&state, "/w/.git/config"), None);
    assert_eq!(cached(&state, "/w/target/out.o"), None);
    assert_eq!(cached(&state, "/w/node_modules/p/index.js"), None);
    assert_eq!(cached(&state, "/w/src/lib.rs"), Some("code".to_string()));
}

#[test]
fn modify_queues_pending_change() {
    let mut state = seeded(&[("./main.txt", "/w/main.txt", "hello")]);
    state.add_change(
        &"./main.txt".to_string(),
        &"/w/main.txt".to_string(),
        ChangeKind::Modify,
        1000,
        Some("hello world".to_string()),
    );
    assert_eq!(state.approval_queue.len(), 1);
    assert!(state.modal_active);
    let head = state.head().unwrap();
    assert_eq!(head.path, "/w/main.txt");
    assert_eq!(head.old_content, "hello");
    assert_eq!(head.new_content, "hello world");
    assert_eq!(state.file_changes.len(), 1);
    assert_eq!(state.file_changes[0].path, "main.txt");
    assert_eq!(state.file_changes[0].kind, ChangeKind::Modify);
    // the cache is untouched until the change is accepted
    assert_eq!(cached(&state, "/w/main.txt"), Some("hello".to_string()));
}

#[test]
fn accept_updates_cache_and_empties_queue() {
    // the full scenario: seed, external write, accept
    let mut state = seeded(&[("./main.txt", "/w/main.txt", "hello")]);
    state.add_change(
        &"./main.txt".to_string(),
        &"/w/main.txt".to_string(),
        ChangeKind::Modify,
        1000,
        Some("hello world".to_string()),
    );
    state.accept();
    assert_eq!(cached(&state, "/w/main.txt"), Some("hello world".to_string()));
    assert_eq!(state.approval_queue.len(), 0);
    assert!(!state.modal_active);
}

#[test]
fn identical_content_is_a_no_op() {
    let mut state = seeded(&[("./main.txt", "/w/main.txt", "hello")]);
    state.add_change(
        &"./main.txt".to_string(),
        &"/w/main.txt".to_string(),
        ChangeKind::Modify,
        1000,
        Some("hello".to_string()),
    );
    assert_eq!(state.approval_queue.len(), 0);
    assert!(!state.modal_active);
    assert_eq!(state.file_changes.len(), 0);
}

#[test]
fn create_on_empty_cache_with_empty_content_is_a_no_op() {
    let mut state = seeded(&[]);
    state.add_change(
        &"./new.txt".to_string(),
        &"/w/new.txt".to_string(),
        ChangeKind::Create,
        1000,
        Some(String::new()),
    );
    assert_eq!(state.approval_queue.len(), 0);
}

#[test]
fn unreadable_content_logs_without_queueing() {
    let mut state = seeded(&[]);
    state.add_change(
        &"./gone.txt".to_string(),
        &"/w/gone.txt".to_string(),
        ChangeKind::Modify,
        1000,
        None,
    );
    assert_eq!(state.approval_queue.len(), 0);
    assert_eq!(state.file_changes.len(), 1);
    assert!(state.file_changes[0].diff.is_none());
}

#[test]
fn remove_of_tracked_file_queues_deletion() {
    // external process deletes a file whose content the cache holds
    let mut state = seeded(&[("./main.txt", "/w/main.txt", "hello world")]);
    state.add_change(
        &"./main.txt".to_string(),
        &"/w/main.txt".to_string(),
        ChangeKind::Remove,
        1000,
        None,
    );
    assert_eq!(state.approval_queue.len(), 1);
    let head = state.head().unwrap();
    assert_eq!(head.old_content, "hello world");
    assert_eq!(head.new_content, "");
    assert_eq!(head.diff_text, "File Deleted: main.txt");
}

#[test]
fn remove_of_unknown_file_is_log_only() {
    let mut state = seeded(&[]);
    state.add_change(
        &"./stray.txt".to_string(),
        &"/w/stray.txt".to_string(),
        ChangeKind::Remove,
        1000,
        None,
    );
    assert_eq!(state.approval_queue.len(), 0);
    assert_eq!(state.file_changes.len(), 1);
}

#[test]
fn reject_deletion_restores_and_arms_ignore() {
    // external delete, operator rejects: the old content must go back
    let mut state = seeded(&[("./main.txt", "/w/main.txt", "hello world")]);
    state.add_change(
        &"./main.txt".to_string(),
        &"/w/main.txt".to_string(),
        ChangeKind::Remove,
        1000,
        None,
    );
    let action = state.reject().unwrap();
    match action {
        RevertAction::Restore { path, content } => {
            assert_eq!(path, "/w/main.txt");
            assert_eq!(content, "hello world");
        }
        RevertAction::Delete { .. } => panic!("a deletion must be reverted by a restore"),
    }
    assert!(!state.modal_active);
    // the revert write's own notification is swallowed once
    state.add_change(
        &"./main.txt".to_string(),
        &"/w/main.txt".to_string(),
        ChangeKind::Create,
        1100,
        Some("hello world".to_string()),
    );
    assert_eq!(state.approval_queue.len(), 0);
    assert_eq!(state.file_changes.len(), 1);
    // a later, legitimate change is not swallowed
    state.add_change(
        &"./main.txt".to_string(),
        &"/w/main.txt".to_string(),
        ChangeKind::Modify,
        2000,
        Some("fresh".to_string()),
    );
    assert_eq!(state.approval_queue.len(), 1);
}

#[test]
fn reject_creation_deletes_and_arms_ignore() {
    let mut state = seeded(&[]);
    state.add_change(
        &"./new.txt".to_string(),
        &"/w/new.txt".to_string(),
        ChangeKind::Create,
        1000,
        Some("fresh".to_string()),
    );
    let action = state.reject().unwrap();
    match action {
        RevertAction::Delete { path } => assert_eq!(path, "/w/new.txt"),
        RevertAction::Restore { .. } => panic!("a creation must be reverted by a delete"),
    }
    // the echo of our own delete is swallowed and consumes the entry
    state.add_change(
        &"./new.txt".to_string(),
        &"/w/new.txt".to_string(),
        ChangeKind::Remove,
        1100,
        None,
    );
    assert_eq!(state.approval_queue.len(), 0);
    assert_eq!(state.file_changes.len(), 1);
}

#[test]
fn debounce_collapses_within_window() {
    let mut state = seeded(&[("./a.txt", "/w/a.txt", "one")]);
    state.add_change(
        &"./a.txt".to_string(),
        &"/w/a.txt".to_string(),
        ChangeKind::Modify,
        1000,
        Some("two".to_string()),
    );
    // 100 ms later: same name and kind, inside the window, dropped
    state.add_change(
        &"./a.txt".to_string(),
        &"/w/a.txt".to_string(),
        ChangeKind::Modify,
        1100,
        Some("three".to_string()),
    );
    assert_eq!(state.approval_queue.len(), 1);
    assert_eq!(state.head().unwrap().new_content, "two");
}

#[test]
fn debounce_expires_outside_window() {
    let mut state = seeded(&[("./a.txt", "/w/a.txt", "one")]);
    state.add_change(
        &"./a.txt".to_string(),
        &"/w/a.txt".to_string(),
        ChangeKind::Modify,
        1000,
        Some("two".to_string()),
    );
    // 600 ms later: outside the window, evaluated again
    state.add_change(
        &"./a.txt".to_string(),
        &"/w/a.txt".to_string(),
        ChangeKind::Modify,
        1600,
        Some("three".to_string()),
    );
    assert_eq!(state.approval_queue.len(), 2);
}

#[test]
fn debounce_expired_but_identical_still_no_op() {
    let mut state = seeded(&[("./a.txt", "/w/a.txt", "one")]);
    state.add_change(
        &"./a.txt".to_string(),
        &"/w/a.txt".to_string(),
        ChangeKind::Modify,
        1000,
        Some("two".to_string()),
    );
    state.accept();
    // outside the window, but the bytes equal the approved bytes
    state.add_change(
        &"./a.txt".to_string(),
        &"/w/a.txt".to_string(),
        ChangeKind::Modify,
        1600,
        Some("two".to_string()),
    );
    assert_eq!(state.approval_queue.len(), 0);
}

#[test]
fn decisions_follow_arrival_order() {
    let mut state = seeded(&[]);
    for (i, name) in ["a.txt", "b.txt", "c.txt"].iter().enumerate() {
        state.add_change(
            &format!("./{}", name),
            &format!("/w/{}", name),
            ChangeKind::Create,
            1000 + i as u64,
            Some("body".to_string()),
        );
    }
    assert_eq!(state.approval_queue.len(), 3);
    assert_eq!(state.head().unwrap().path, "/w/a.txt");
    state.accept();
    assert_eq!(state.head().unwrap().path, "/w/b.txt");
    state.reject();
    assert_eq!(state.head().unwrap().path, "/w/c.txt");
    state.accept();
    assert!(state.head().is_none());
    assert!(!state.modal_active);
}

#[test]
fn noise_paths_are_dropped() {
    let mut state = seeded(&[]);
    state.add_change(
        &"./target/debug/app".to_string(),
        &"/w/target/debug/app".to_string(),
        ChangeKind::Create,
        1000,
        Some("bin".to_string()),
    );
    state.add_change(
        &"./node_modules/p/index.js".to_string(),
        &"/w/node_modules/p/index.js".to_string(),
        ChangeKind::Create,
        1000,
        Some("js".to_string()),
    );
    state.add_change(
        &"./.git/index".to_string(),
        &"/w/.git/index".to_string(),
        ChangeKind::Modify,
        1000,
        Some("idx".to_string()),
    );
    assert_eq!(state.approval_queue.len(), 0);
    assert_eq!(state.file_changes.len(), 0);
}

#[test]
fn hidden_names_are_dropped_unless_allowed() {
    let mut state = seeded(&[]);
    state.add_change(
        &"./.env".to_string(),
        &"/w/.env".to_string(),
        ChangeKind::Create,
        1000,
        Some("KEY=1".to_string()),
    );
    assert_eq!(state.approval_queue.len(), 0);
    state.add_change(
        &"./.gitignore".to_string(),
        &"/w/.gitignore".to_string(),
        ChangeKind::Create,
        1000,
        Some("target".to_string()),
    );
    assert_eq!(state.approval_queue.len(), 1);
}

#[test]
fn accepted_deletion_forgets_the_path() {
    let mut state = seeded(&[("./main.txt", "/w/main.txt", "hello")]);
    state.add_change(
        &"./main.txt".to_string(),
        &"/w/main.txt".to_string(),
        ChangeKind::Remove,
        1000,
        None,
    );
    state.accept();
    assert_eq!(cached(&state, "/w/main.txt"), None);
}

#[test]
fn decision_on_empty_queue_changes_nothing() {
    let mut state = seeded(&[]);
    state.accept();
    assert!(state.reject().is_none());
    assert_eq!(state.approval_queue.len(), 0);
    assert!(!state.modal_active);
}

#[test]
fn log_is_bounded_newest_first() {
    let mut state = seeded(&[]);
    for i in 0..60u64 {
        state.add_change(
            &format!("./f{}.txt", i),
            &format!("/w/f{}.txt", i),
            ChangeKind::Create,
            1000 + i,
            Some("x".to_string()),
        );
    }
    assert_eq!(state.file_changes.len(), 50);
    assert_eq!(state.file_changes[0].path, "f59.txt");
    assert_eq!(state.file_changes[49].path, "f10.txt");
    assert_eq!(state.selected, Some(0));
}
