//! Keyboard routing: the decision, for each key, between ending the loop,
//! forwarding bytes to the child process, driving the approval workflow,
//! and adjusting the display.  While a decision is outstanding every key is
//! consumed here and nothing reaches the child.

use vstd::prelude::*;
use crate::coordinator::AppState;
use crate::coordinator::spec_accept;
use crate::coordinator::spec_reject;
use crate::types::RevertAction;

verus! {

/// A decoded key, independent of any terminal backend.
#[derive(Clone, Copy, Debug, PartialEq, Eq, Structural)]
pub enum KeyCode {
    Char(char),
    Enter,
    Backspace,
    Tab,
    Esc,
    Up,
    Down,
    Left,
    Right,
    Other,
}

/// A key press: the key and whether control was held.
#[derive(Clone, Copy, Debug, PartialEq, Eq, Structural)]
pub struct KeyInput {
    pub code: KeyCode,
    pub ctrl: bool,
}

/// What the caller must do after a key was routed.
#[derive(Clone, Debug)]
pub enum KeyAction {
    /// Leave the loop and shut the session down.
    Exit,
    /// Forward these bytes to the child process.
    Write(Vec<u8>),
    /// Forward this character to the child process, encoded as text.
    WriteChar(char),
    /// Perform this revert on disk; the ignore set is already armed.
    Revert(RevertAction),
    /// Nothing to do outside the state.
    Nothing,
}

/// The selection index one step up from `sel`.
pub open spec fn spec_select_up(sel: Option<usize>) -> usize {
    match sel {
        None => 0usize,
        Some(i) => if i > 0 {
            (i - 1) as usize
        } else {
            0usize
        },
    }
}

/// The selection index one step down from `sel`, clamped to the log.
pub open spec fn spec_select_down(sel: Option<usize>, len: nat) -> usize {
    let cap: usize = if len == 0 {
        0usize
    } else {
        (len - 1) as usize
    };
    match sel {
        None => 0usize,
        Some(i) => if i + 1 <= cap {
            (i + 1) as usize
        } else {
            cap
        },
    }
}

/// The workflow state a display key may not touch is unchanged.
pub open spec fn spec_workflow_frame(pre: AppState, post: AppState) -> bool {
    &&& post.debounce_map == pre.debounce_map
    &&& post.file_cache == pre.file_cache
    &&& post.approval_queue == pre.approval_queue
    &&& post.ignore_next_write == pre.ignore_next_write
    &&& post.modal_active == pre.modal_active
}

/// The whole effect of one key press on the state, and what it asks of the
/// caller.  While reviewing, only the decision keys act and every key is
/// consumed; otherwise keys either control the display or are forwarded
/// with the fixed control mappings.
pub open spec fn spec_route_key(
    pre: AppState,
    post: AppState,
    key: KeyInput,
    r: KeyAction,
) -> bool {
    if pre.modal_active {
        if key.code == KeyCode::Char('y') {
            spec_accept(pre, post) && r is Nothing
        } else if key.code == KeyCode::Char('n') {
            r matches KeyAction::Revert(a) && spec_reject(pre, post, Some(a))
        } else {
            post == pre && r is Nothing
        }
    } else if key.ctrl && key.code == KeyCode::Char('q') {
        post == pre && r is Exit
    } else if key.ctrl && key.code == KeyCode::Char('c') {
        post == pre && (r matches KeyAction::Write(b) && b@ == seq![3u8])
    } else if key.ctrl && key.code == KeyCode::Char('d') {
        post == pre && (r matches KeyAction::Write(b) && b@ == seq![4u8])
    } else if key.ctrl && key.code == KeyCode::Char('k') {
        &&& spec_workflow_frame(pre, post)
        &&& post.file_changes == pre.file_changes
        &&& post.selected == pre.selected
        &&& post.show_sidebar == pre.show_sidebar
        &&& post.show_diff_view == !pre.show_diff_view
        &&& r is Nothing
    } else if key.ctrl && key.code == KeyCode::Char('h') {
        &&& spec_workflow_frame(pre, post)
        &&& post.file_changes == pre.file_changes
        &&& post.selected == pre.selected
        &&& post.show_sidebar == !pre.show_sidebar
        &&& post.show_diff_view == pre.show_diff_view
        &&& r is Nothing
    } else if key.ctrl && key.code == KeyCode::Char('l') {
        &&& spec_workflow_frame(pre, post)
        &&& post.file_changes@.len() == 0
        &&& post.selected is None
        &&& post.show_sidebar == pre.show_sidebar
        &&& post.show_diff_view == pre.show_diff_view
        &&& r is Nothing
    } else if key.ctrl && key.code == KeyCode::Up {
        &&& spec_workflow_frame(pre, post)
        &&& post.file_changes == pre.file_changes
        &&& post.show_sidebar == pre.show_sidebar
        &&& post.show_diff_view == pre.show_diff_view
        &&& post.selected == Some(spec_select_up(pre.selected))
        &&& r is Nothing
    } else if key.ctrl && key.code == KeyCode::Down {
        &&& spec_workflow_frame(pre, post)
        &&& post.file_changes == pre.file_changes
        &&& post.show_sidebar == pre.show_sidebar
        &&& post.show_diff_view == pre.show_diff_view
        &&& post.selected == Some(spec_select_down(pre.selected, pre.file_changes@.len()))
        &&& r is Nothing
    } else {
        post == pre && match key.code {
            KeyCode::Char(c) => r matches KeyAction::WriteChar(w) && w == c,
            KeyCode::Enter => r matches KeyAction::Write(b) && b@ == seq![13u8],
            KeyCode::Backspace => r matches KeyAction::Write(b) && b@ == seq![127u8],
            KeyCode::Tab => r matches KeyAction::Write(b) && b@ == seq![9u8],
            KeyCode::Esc => r matches KeyAction::Write(b) && b@ == seq![27u8],
            KeyCode::Up => r matches KeyAction::Write(b) && b@ == seq![27u8, 91u8, 65u8],
            KeyCode::Down => r matches KeyAction::Write(b) && b@ == seq![27u8, 91u8, 66u8],
            KeyCode::Right => r matches KeyAction::Write(b) && b@ == seq![27u8, 91u8, 67u8],
            KeyCode::Left => r matches KeyAction::Write(b) && b@ == seq![27u8, 91u8, 68u8],
            KeyCode::Other => r is Nothing,
        }
    }
}

fn one_byte(b: u8) -> (r: Vec<u8>)
    ensures
        r@ == seq![b],
{
    let mut v: Vec<u8> = Vec::new();
    v.push(b);
    proof {
        assert(v@ =~= seq![b]);
    }
    v
}

fn arrow_bytes(last: u8) -> (r: Vec<u8>)
    ensures
        r@ == seq![27u8, 91u8, last],
{
    let mut v: Vec<u8> = Vec::new();
    v.push(27);
    v.push(91);
    v.push(last);
    proof {
        assert(v@ =~= seq![27u8, 91u8, last]);
    }
    v
}

/// Route one key press: decide between the approval workflow, the display
/// controls, and forwarding to the child.
pub fn route_key(state: &mut AppState, key: KeyInput) -> (r: KeyAction)
    requires
        old(state).wf(),
    ensures
        final(state).wf(),
        spec_route_key(*old(state), *final(state), key, r),
{
    if state.modal_active {
        match key.code {
            KeyCode::Char(c) => {
                if c == 'y' {
                    state.accept();
                    KeyAction::Nothing
                } else if c == 'n' {
                    match state.reject() {
                        Some(a) => KeyAction::Revert(a),
                        None => KeyAction::Nothing,
                    }
                } else {
                    KeyAction::Nothing
                }
            },
            _ => KeyAction::Nothing,
        }
    } else if key.ctrl {
        match key.code {
            KeyCode::Char(c) => {
                if c == 'q' {
                    KeyAction::Exit
                } else if c == 'c' {
                    KeyAction::Write(one_byte(3))
                } else if c == 'd' {
                    KeyAction::Write(one_byte(4))
                } else if c == 'k' {
                    state.show_diff_view = !state.show_diff_view;
                    KeyAction::Nothing
                } else if c == 'h' {
                    state.show_sidebar = !state.show_sidebar;
                    KeyAction::Nothing
                } else if c == 'l' {
                    state.file_changes.clear();
                    state.selected = None;
                    KeyAction::Nothing
                } else {
                    KeyAction::WriteChar(c)
                }
            },
            KeyCode::Up => {
                let next: usize = match state.selected {
                    None => 0,
                    Some(i) => if i > 0 {
                        i - 1
                    } else {
                        0
                    },
                };
                state.selected = Some(next);
                KeyAction::Nothing
            },
            KeyCode::Down => {
                let len = state.file_changes.len();
                let cap: usize = if len == 0 {
                    0
                } else {
                    len - 1
                };
                let next: usize = match state.selected {
                    None => 0,
                    Some(i) => if i + 1 <= cap {
                        i + 1
                    } else {
                        cap
                    },
                };
                state.selected = Some(next);
                KeyAction::Nothing
            },
            KeyCode::Enter => KeyAction::Write(one_byte(13)),
            KeyCode::Backspace => KeyAction::Write(one_byte(127)),
            KeyCode::Tab => KeyAction::Write(one_byte(9)),
            KeyCode::Esc => KeyAction::Write(one_byte(27)),
            KeyCode::Right => KeyAction::Write(arrow_bytes(67)),
            KeyCode::Left => KeyAction::Write(arrow_bytes(68)),
            KeyCode::Other => KeyAction::Nothing,
        }
    } else {
        match key.code {
            KeyCode::Char(c) => KeyAction::WriteChar(c),
            KeyCode::Enter => KeyAction::Write(one_byte(13)),
            KeyCode::Backspace => KeyAction::Write(one_byte(127)),
            KeyCode::Tab => KeyAction::Write(one_byte(9)),
            KeyCode::Esc => KeyAction::Write(one_byte(27)),
            KeyCode::Up => KeyAction::Write(arrow_bytes(65)),
            KeyCode::Down => KeyAction::Write(arrow_bytes(66)),
            KeyCode::Right => KeyAction::Write(arrow_bytes(67)),
            KeyCode::Left => KeyAction::Write(arrow_bytes(68)),
            KeyCode::Other => KeyAction::Nothing,
        }
    }
}

} // verus!
