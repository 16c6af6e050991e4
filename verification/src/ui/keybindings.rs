//! Key and mouse dispatch: from an input event and the current state to the
//! next state and to whether the application goes on.
//!
//! The dispatch branches on the mode first, so that the help overlay, the
//! quit confirmation, insert mode and normal mode each have their own table.

use vstd::prelude::*;
use crate::app::{AppState, Mode, PanelFocus, capped_sum, floored_difference};
use crate::event::{KeyCode, KeyInput, MouseInput, MouseKind};
use crate::git::types::{DiffMode, GitRequest};

verus! {

/// Whether the application goes on after an input event.
#[derive(Debug, Clone, Copy, PartialEq, Eq, Structural)]
pub enum KeyAction {
    /// Go on, and draw again.
    Continue,
    /// Leave: nothing unsaved stands in the way.
    Quit,
}

/// How many lines one notch of the mouse wheel scrolls.
pub const WHEEL_LINES: u16 = 3;

/// The diff mode that follows `mode` when the modes are cycled through.
pub open spec fn mode_after(mode: DiffMode) -> DiffMode {
    match mode {
        DiffMode::Unstaged => DiffMode::Staged,
        DiffMode::Staged => DiffMode::BranchComparison,
        DiffMode::BranchComparison => DiffMode::CommitRange,
        DiffMode::CommitRange => DiffMode::Unstaged,
    }
}

/// What a scroll key does in normal mode, if `key` is one: `j` and `k`
/// scroll by a line, `g` and `G` go to the top and the bottom, and with the
/// control key `d` and `u` scroll by half a page and `f` and `b` by a full
/// page.
pub open spec fn after_scroll_key(state: AppState, key: KeyInput) -> Option<AppState> {
    match key.code {
        KeyCode::Char(c) => if c == 'j' {
            Some(state.scrolled_down(1))
        } else if c == 'k' {
            Some(state.scrolled_up(1))
        } else if c == 'g' {
            Some(state.at_top())
        } else if c == 'G' {
            Some(state.at_bottom())
        } else if c == 'd' && key.control {
            Some(state.scrolled_down(state.half_page()))
        } else if c == 'u' && key.control {
            Some(state.scrolled_up(state.half_page()))
        } else if c == 'f' && key.control {
            Some(state.scrolled_down(state.full_page()))
        } else if c == 'b' && key.control {
            Some(state.scrolled_up(state.full_page()))
        } else {
            None
        },
        _ => None,
    }
}

/// The state after the diff mode was switched to the next one: the new mode
/// is loading, the diff is back at its top, and the request for the new mode
/// is due.
pub open spec fn after_mode_switch(state: AppState) -> AppState {
    AppState {
        diff_mode: mode_after(state.diff_mode),
        diff_loading: true,
        diff_scroll: 0,
        pending_request: Some(GitRequest::LoadDiff(mode_after(state.diff_mode))),
        ..state
    }
}

/// What a file-list key does in normal mode, if `key` is one: with the
/// focus on the file list, `Enter` and `l` jump to the selected file; `Tab`
/// switches the diff mode wherever the focus is.
pub open spec fn after_file_list_key(state: AppState, key: KeyInput) -> Option<AppState> {
    if (key.code == KeyCode::Enter || key.code == KeyCode::Char('l')) && state.focus
        == PanelFocus::FileList {
        Some(state.at_selected_file())
    } else if key.code == KeyCode::Tab {
        Some(after_mode_switch(state))
    } else {
        None
    }
}

/// What the remaining keys do in normal mode.
pub open spec fn after_other_key(state: AppState, key: KeyInput) -> (AppState, KeyAction) {
    match key.code {
        KeyCode::Char(c) => if c == 'H' {
            (AppState { focus: state.focus.spec_prev(), ..state }, KeyAction::Continue)
        } else if c == 'L' {
            (AppState { focus: state.focus.spec_next(), ..state }, KeyAction::Continue)
        } else if c == '{' {
            (state.at_prev_file(), KeyAction::Continue)
        } else if c == '}' {
            (state.at_next_file(), KeyAction::Continue)
        } else if c == '[' {
            (state.at_prev_hunk(), KeyAction::Continue)
        } else if c == ']' {
            (state.at_next_hunk(), KeyAction::Continue)
        } else if c == '<' {
            (state.shrunk(), KeyAction::Continue)
        } else if c == '>' {
            (state.grown(), KeyAction::Continue)
        } else if c == '?' {
            (AppState { help_scroll: 0, mode: Mode::HelpOverlay, ..state }, KeyAction::Continue)
        } else if c == 'q' {
            after_quit_key(state)
        } else {
            (state, KeyAction::Continue)
        },
        KeyCode::Esc => after_quit_key(state),
        _ => (state, KeyAction::Continue),
    }
}

/// What the quit key does in normal mode: it quits, unless a comment is
/// unsaved; then it asks first.
pub open spec fn after_quit_key(state: AppState) -> (AppState, KeyAction) {
    if state.has_unsaved_comments {
        (AppState { mode: Mode::ConfirmQuit, ..state }, KeyAction::Continue)
    } else {
        (state, KeyAction::Quit)
    }
}

/// What a key does in normal mode: scroll keys come first, then the keys of
/// the file list, then all others.
pub open spec fn after_normal_key(state: AppState, key: KeyInput) -> (AppState, KeyAction) {
    match after_scroll_key(state, key) {
        Some(next) => (next, KeyAction::Continue),
        None => match after_file_list_key(state, key) {
            Some(next) => (next, KeyAction::Continue),
            None => after_other_key(state, key),
        },
    }
}

/// What a key does while the help overlay is shown: `j`, `k`, `g` and `G`
/// scroll the overlay, and `?`, `Esc` and `q` close it.
pub open spec fn after_help_key(state: AppState, key: KeyInput) -> AppState {
    match key.code {
        KeyCode::Char(c) => if c == 'j' {
            AppState {
                help_scroll: capped_sum(state.help_scroll as int, 1, u16::MAX as int) as u16,
                ..state
            }
        } else if c == 'k' {
            AppState { help_scroll: floored_difference(state.help_scroll as int, 1) as u16, ..state }
        } else if c == 'g' {
            AppState { help_scroll: 0, ..state }
        } else if c == 'G' {
            AppState { help_scroll: u16::MAX, ..state }
        } else if c == '?' || c == 'q' {
            AppState { mode: Mode::Normal, ..state }
        } else {
            state
        },
        KeyCode::Esc => AppState { mode: Mode::Normal, ..state },
        _ => state,
    }
}

/// What a key does while the quit confirmation is shown: `y` quits, and
/// `n` and `Esc` go back to normal mode.
pub open spec fn after_confirm_key(state: AppState, key: KeyInput) -> (AppState, KeyAction) {
    match key.code {
        KeyCode::Char(c) => if c == 'y' || c == 'Y' {
            (state, KeyAction::Quit)
        } else if c == 'n' || c == 'N' {
            (AppState { mode: Mode::Normal, ..state }, KeyAction::Continue)
        } else {
            (state, KeyAction::Continue)
        },
        KeyCode::Esc => (AppState { mode: Mode::Normal, ..state }, KeyAction::Continue),
        _ => (state, KeyAction::Continue),
    }
}

/// What a key does in insert mode: `Esc` goes back to normal mode.
pub open spec fn after_insert_key(state: AppState, key: KeyInput) -> AppState {
    if key.code == KeyCode::Esc {
        AppState { mode: Mode::Normal, ..state }
    } else {
        state
    }
}

/// What a key does, by the mode the state is in.
pub open spec fn after_key(state: AppState, key: KeyInput) -> (AppState, KeyAction) {
    match state.mode {
        Mode::HelpOverlay => (after_help_key(state, key), KeyAction::Continue),
        Mode::ConfirmQuit => after_confirm_key(state, key),
        Mode::Normal => after_normal_key(state, key),
        Mode::Insert => (after_insert_key(state, key), KeyAction::Continue),
    }
}

/// What a click at `column` and `row` does: the panel under it takes the
/// focus. A side panel of no width takes none.
pub open spec fn after_click(state: AppState, column: u16, row: u16) -> AppState {
    let left = state.panel_rects@[0];
    let center = state.panel_rects@[1];
    let right = state.panel_rects@[2];
    if left.width > 0 && left.holds(column, row) {
        AppState { focus: PanelFocus::FileList, ..state }
    } else if center.holds(column, row) {
        AppState { focus: PanelFocus::Diff, ..state }
    } else if right.width > 0 && right.holds(column, row) {
        AppState { focus: PanelFocus::Comments, ..state }
    } else {
        state
    }
}

/// What a mouse event does: a left click sets the focus, and the wheel
/// scrolls the help overlay if it is shown and the focused panel otherwise.
pub open spec fn after_mouse(state: AppState, mouse: MouseInput) -> AppState {
    match mouse.kind {
        MouseKind::LeftDown => after_click(state, mouse.column, mouse.row),
        MouseKind::ScrollUp => if state.mode == Mode::HelpOverlay {
            AppState {
                help_scroll: floored_difference(state.help_scroll as int, WHEEL_LINES as int) as u16,
                ..state
            }
        } else {
            state.scrolled_up(WHEEL_LINES)
        },
        MouseKind::ScrollDown => if state.mode == Mode::HelpOverlay {
            AppState {
                help_scroll: capped_sum(
                    state.help_scroll as int,
                    WHEEL_LINES as int,
                    u16::MAX as int,
                ) as u16,
                ..state
            }
        } else {
            state.scrolled_down(WHEEL_LINES)
        },
        MouseKind::Other => state,
    }
}

/// A key quits only where nothing is lost by it: in normal mode with no
/// comment unsaved, or at the quit confirmation.
pub proof fn lemma_quit_loses_nothing(state: AppState, key: KeyInput)
    requires
        after_key(state, key).1 == KeyAction::Quit,
    ensures
        (state.mode == Mode::Normal && !state.has_unsaved_comments) || state.mode
            == Mode::ConfirmQuit,
        after_key(state, key).0 == state,
{
}

/// Dispatches a key to the table of the current mode.
pub fn handle_key(key: KeyInput, state: &mut AppState) -> (r: KeyAction)
    ensures
        (*final(state), r) == after_key(*old(state), key),
{
    match state.mode {
        Mode::HelpOverlay => handle_help(key, state),
        Mode::ConfirmQuit => handle_confirm_quit(key, state),
        Mode::Normal => handle_normal(key, state),
        Mode::Insert => handle_insert(key, state),
    }
}

/// Handles a key in normal mode.
fn handle_normal(key: KeyInput, state: &mut AppState) -> (r: KeyAction)
    ensures
        (*final(state), r) == after_normal_key(*old(state), key),
{
    if let Some(action) = handle_scroll_key(key, state) {
        return action;
    }
    if let Some(action) = handle_file_list_key(key, state) {
        return action;
    }
    match key.code {
        KeyCode::Char('H') => {
            state.focus = state.focus.prev();
            KeyAction::Continue
        },
        KeyCode::Char('L') => {
            state.focus = state.focus.next();
            KeyAction::Continue
        },
        KeyCode::Char('{') => {
            state.prev_file();
            KeyAction::Continue
        },
        KeyCode::Char('}') => {
            state.next_file();
            KeyAction::Continue
        },
        KeyCode::Char('[') => {
            state.prev_hunk();
            KeyAction::Continue
        },
        KeyCode::Char(']') => {
            state.next_hunk();
            KeyAction::Continue
        },
        KeyCode::Char('<') => {
            state.shrink_diff_panel();
            KeyAction::Continue
        },
        KeyCode::Char('>') => {
            state.grow_diff_panel();
            KeyAction::Continue
        },
        KeyCode::Char('?') => {
            state.help_scroll = 0;
            state.mode = Mode::HelpOverlay;
            KeyAction::Continue
        },
        KeyCode::Char('q') | KeyCode::Esc => {
            if state.has_unsaved_comments {
                state.mode = Mode::ConfirmQuit;
                KeyAction::Continue
            } else {
                KeyAction::Quit
            }
        },
        _ => KeyAction::Continue,
    }
}

/// Handles the keys of the file list in normal mode. Returns `None` for
/// any other key, which then falls through.
fn handle_file_list_key(key: KeyInput, state: &mut AppState) -> (r: Option<KeyAction>)
    ensures
        after_file_list_key(*old(state), key) matches Some(next) ==> *final(state) == next && r
            == Some(KeyAction::Continue),
        after_file_list_key(*old(state), key) is None ==> *final(state) == *old(state) && r is None,
{
    let on_file_list = match state.focus {
        PanelFocus::FileList => true,
        _ => false,
    };
    let jumps = match key.code {
        KeyCode::Enter => on_file_list,
        KeyCode::Char(c) => c == 'l' && on_file_list,
        _ => false,
    };
    let switches = match key.code {
        KeyCode::Tab => true,
        _ => false,
    };
    if jumps {
        state.jump_to_selected_file();
        Some(KeyAction::Continue)
    } else if switches {
        let next_mode = match state.diff_mode {
            DiffMode::Unstaged => DiffMode::Staged,
            DiffMode::Staged => DiffMode::BranchComparison,
            DiffMode::BranchComparison => DiffMode::CommitRange,
            DiffMode::CommitRange => DiffMode::Unstaged,
        };
        state.diff_mode = next_mode;
        state.diff_loading = true;
        state.diff_scroll = 0;
        state.pending_request = Some(GitRequest::LoadDiff(next_mode));
        Some(KeyAction::Continue)
    } else {
        None
    }
}

/// Handles the scroll keys in normal mode. Returns `None` for any other
/// key, which then falls through.
fn handle_scroll_key(key: KeyInput, state: &mut AppState) -> (r: Option<KeyAction>)
    ensures
        after_scroll_key(*old(state), key) matches Some(next) ==> *final(state) == next && r
            == Some(KeyAction::Continue),
        after_scroll_key(*old(state), key) is None ==> *final(state) == *old(state) && r is None,
{
    let ctrl = key.control;
    match key.code {
        KeyCode::Char(c) => {
            if c == 'j' {
                state.scroll_down(1);
            } else if c == 'k' {
                state.scroll_up(1);
            } else if c == 'g' {
                state.scroll_top();
            } else if c == 'G' {
                state.scroll_bottom();
            } else if c == 'd' && ctrl {
                state.half_page_down();
            } else if c == 'u' && ctrl {
                state.half_page_up();
            } else if c == 'f' && ctrl {
                state.full_page_down();
            } else if c == 'b' && ctrl {
                state.full_page_up();
            } else {
                return None;
            }
            Some(KeyAction::Continue)
        },
        _ => None,
    }
}

/// Handles a key while the help overlay is shown.
fn handle_help(key: KeyInput, state: &mut AppState) -> (r: KeyAction)
    ensures
        *final(state) == after_help_key(*old(state), key),
        r == KeyAction::Continue,
{
    match key.code {
        KeyCode::Char('j') => {
            state.help_scroll = state.help_scroll.saturating_add(1);
        },
        KeyCode::Char('k') => {
            state.help_scroll = state.help_scroll.saturating_sub(1);
        },
        KeyCode::Char('g') => {
            state.help_scroll = 0;
        },
        KeyCode::Char('G') => {
            state.help_scroll = u16::MAX;
        },
        KeyCode::Char('?') | KeyCode::Esc | KeyCode::Char('q') => {
            state.mode = Mode::Normal;
        },
        _ => {},
    }
    KeyAction::Continue
}

/// Handles a key while the quit confirmation is shown.
fn handle_confirm_quit(key: KeyInput, state: &mut AppState) -> (r: KeyAction)
    ensures
        (*final(state), r) == after_confirm_key(*old(state), key),
{
    match key.code {
        KeyCode::Char('y') | KeyCode::Char('Y') => KeyAction::Quit,
        KeyCode::Char('n') | KeyCode::Char('N') | KeyCode::Esc => {
            state.mode = Mode::Normal;
            KeyAction::Continue
        },
        _ => KeyAction::Continue,
    }
}

/// Handles a key in insert mode.
fn handle_insert(key: KeyInput, state: &mut AppState) -> (r: KeyAction)
    ensures
        *final(state) == after_insert_key(*old(state), key),
        r == KeyAction::Continue,
{
    match key.code {
        KeyCode::Esc => {
            state.mode = Mode::Normal;
        },
        _ => {},
    }
    KeyAction::Continue
}

/// Handles a mouse event: a left click sets the focus, the wheel scrolls.
/// The application always goes on.
pub fn handle_mouse(mouse: MouseInput, state: &mut AppState) -> (r: KeyAction)
    ensures
        *final(state) == after_mouse(*old(state), mouse),
        r == KeyAction::Continue,
{
    match mouse.kind {
        MouseKind::LeftDown => handle_mouse_click(mouse.column, mouse.row, state),
        MouseKind::ScrollUp => handle_mouse_scroll_up(state),
        MouseKind::ScrollDown => handle_mouse_scroll_down(state),
        MouseKind::Other => KeyAction::Continue,
    }
}

/// Gives the focus to the panel under a click.
fn handle_mouse_click(column: u16, row: u16, state: &mut AppState) -> (r: KeyAction)
    ensures
        *final(state) == after_click(*old(state), column, row),
        r == KeyAction::Continue,
{
    let left = state.panel_rects[0];
    let center = state.panel_rects[1];
    let right = state.panel_rects[2];
    if left.width > 0 && left.contains(column, row) {
        state.focus = PanelFocus::FileList;
    } else if center.contains(column, row) {
        state.focus = PanelFocus::Diff;
    } else if right.width > 0 && right.contains(column, row) {
        state.focus = PanelFocus::Comments;
    }
    KeyAction::Continue
}

/// Scrolls up by a notch of the wheel.
fn handle_mouse_scroll_up(state: &mut AppState) -> (r: KeyAction)
    ensures
        *final(state) == after_mouse(
            *old(state),
            (MouseInput { kind: MouseKind::ScrollUp, column: 0, row: 0 }),
        ),
        r == KeyAction::Continue,
{
    let on_help = match state.mode {
        Mode::HelpOverlay => true,
        _ => false,
    };
    if on_help {
        state.help_scroll = state.help_scroll.saturating_sub(WHEEL_LINES);
    } else {
        state.scroll_up(WHEEL_LINES);
    }
    KeyAction::Continue
}

/// Scrolls down by a notch of the wheel.
fn handle_mouse_scroll_down(state: &mut AppState) -> (r: KeyAction)
    ensures
        *final(state) == after_mouse(
            *old(state),
            (MouseInput { kind: MouseKind::ScrollDown, column: 0, row: 0 }),
        ),
        r == KeyAction::Continue,
{
    let on_help = match state.mode {
        Mode::HelpOverlay => true,
        _ => false,
    };
    if on_help {
        state.help_scroll = state.help_scroll.saturating_add(WHEEL_LINES);
    } else {
        state.scroll_down(WHEEL_LINES);
    }
    KeyAction::Continue
}

} // verus!
