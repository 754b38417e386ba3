use changegate::coordinator::{AppState, ScanEntry};
use changegate::keys::{route_key, KeyAction, KeyCode, KeyInput};
use changegate::types::ChangeKind;

fn fresh() -> AppState {
    AppState::new(Vec::<ScanEntry>::new())
}

fn key(code: KeyCode) -> KeyInput {
    KeyInput { code, ctrl: false }
}

fn ctrl(code: KeyCode) -> KeyInput {
    KeyInput { code, ctrl: true }
}

fn written(action: KeyAction) -> Vec<u8> {
    match action {
        KeyAction::Write(b) => b,
        other => panic!("expected bytes to forward, got {other:?}"),
    }
}

#[test]
fn quit_key_exits() {
    let mut state = fresh();
    assert!(matches!(
        route_key(&mut state, ctrl(KeyCode::Char('q'))),
        KeyAction::Exit
    ));
}

#[test]
fn control_bytes_are_fixed() {
    let mut state = fresh();
    assert_eq!(written(route_key(&mut state, ctrl(KeyCode::Char('c')))), vec![0x03]);
    assert_eq!(written(route_key(&mut state, ctrl(KeyCode::Char('d')))), vec![0x04]);
    assert_eq!(written(route_key(&mut state, key(KeyCode::Enter))), vec![0x0d]);
    assert_eq!(written(route_key(&mut state, key(KeyCode::Backspace))), vec![0x7f]);
    assert_eq!(written(route_key(&mut state, key(KeyCode::Tab))), vec![0x09]);
    assert_eq!(written(route_key(&mut state, key(KeyCode::Esc))), vec![0x1b]);
}

#[test]
fn arrows_forward_ansi_sequences() {
    let mut state = fresh();
    assert_eq!(written(route_key(&mut state, key(KeyCode::Up))), b"\x1b[A".to_vec());
    assert_eq!(written(route_key(&mut state, key(KeyCode::Down))), b"\x1b[B".to_vec());
    assert_eq!(written(route_key(&mut state, key(KeyCode::Right))), b"\x1b[C".to_vec());
    assert_eq!(written(route_key(&mut state, key(KeyCode::Left))), b"\x1b[D".to_vec());
}

#[test]
fn plain_characters_are_forwarded() {
    let mut state = fresh();
    assert!(matches!(
        route_key(&mut state, key(KeyCode::Char('x'))),
        KeyAction::WriteChar('x')
    ));
}

#[test]
fn display_toggles_flip_state() {
    let mut state = fresh();
    assert!(state.show_sidebar);
    route_key(&mut state, ctrl(KeyCode::Char('h')));
    assert!(!state.show_sidebar);
    assert!(!state.show_diff_view);
    route_key(&mut state, ctrl(KeyCode::Char('k')));
    assert!(state.show_diff_view);
}

#[test]
fn clear_empties_the_log() {
    let mut state = fresh();
    state.add_change(
        &"./a.txt".to_string(),
        &"/w/a.txt".to_string(),
        ChangeKind::Create,
        1000,
        Some("x".to_string()),
    );
    state.accept();
    assert_eq!(state.file_changes.len(), 1);
    route_key(&mut state, ctrl(KeyCode::Char('l')));
    assert_eq!(state.file_changes.len(), 0);
    assert_eq!(state.selected, None);
}

#[test]
fn selection_moves_and_clamps() {
    let mut state = fresh();
    for (i, name) in ["a", "b", "c"].iter().enumerate() {
        state.add_change(
            &format!("./{name}.txt"),
            &format!("/w/{name}.txt"),
            ChangeKind::Create,
            1000 + i as u64,
            Some("x".to_string()),
        );
        state.accept();
    }
    assert_eq!(state.selected, Some(0));
    route_key(&mut state, ctrl(KeyCode::Down));
    assert_eq!(state.selected, Some(1));
    route_key(&mut state, ctrl(KeyCode::Down));
    route_key(&mut state, ctrl(KeyCode::Down));
    assert_eq!(state.selected, Some(2));
    route_key(&mut state, ctrl(KeyCode::Up));
    assert_eq!(state.selected, Some(1));
    route_key(&mut state, ctrl(KeyCode::Up));
    route_key(&mut state, ctrl(KeyCode::Up));
    assert_eq!(state.selected, Some(0));
}

#[test]
fn reviewing_consumes_every_key() {
    let mut state = fresh();
    state.add_change(
        &"./a.txt".to_string(),
        &"/w/a.txt".to_string(),
        ChangeKind::Create,
        1000,
        Some("x".to_string()),
    );
    assert!(state.modal_active);
    // ordinary keys are consumed, not forwarded
    assert!(matches!(
        route_key(&mut state, key(KeyCode::Char('x'))),
        KeyAction::Nothing
    ));
    assert!(matches!(route_key(&mut state, key(KeyCode::Enter)), KeyAction::Nothing));
    assert!(matches!(
        route_key(&mut state, ctrl(KeyCode::Char('q'))),
        KeyAction::Nothing
    ));
    assert_eq!(state.approval_queue.len(), 1);
}

#[test]
fn decision_keys_drive_the_workflow() {
    let mut state = fresh();
    state.add_change(
        &"./a.txt".to_string(),
        &"/w/a.txt".to_string(),
        ChangeKind::Create,
        1000,
        Some("x".to_string()),
    );
    assert!(matches!(
        route_key(&mut state, key(KeyCode::Char('y'))),
        KeyAction::Nothing
    ));
    assert!(!state.modal_active);
    assert_eq!(
        state.file_cache.get(&"/w/a.txt".to_string()),
        Some(&"x".to_string())
    );

    state.add_change(
        &"./b.txt".to_string(),
        &"/w/b.txt".to_string(),
        ChangeKind::Create,
        1000,
        Some("y".to_string()),
    );
    match route_key(&mut state, key(KeyCode::Char('n'))) {
        KeyAction::Revert(_) => {}
        other => panic!("expected a revert action, got {other:?}"),
    }
    assert!(!state.modal_active);
    assert!(state.file_cache.get(&"/w/b.txt".to_string()).is_none());
}
