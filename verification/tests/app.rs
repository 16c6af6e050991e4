use airev::app::{AppState, ListSelection, Mode, PanelFocus, PanelRect};
use airev::git::highlight::HighlightAssets;
use airev::git::extract::{DeltaKind, DiffEvent, Traversal};
use airev::git::types::{DiffMode, GitRequest};
use airev::git::worker::process_diff;

fn payload(mode: DiffMode, hunks: usize) -> airev::git::types::GitResultPayload {
    let mut events = vec![DiffEvent::File { path: Some("a.rs".to_string()), status: DeltaKind::Added }];
    for i in 0..hunks {
        events.push(DiffEvent::Hunk { header: format!("@@ {}", i), old_start: 1, new_start: 1 });
        events.push(DiffEvent::Line {
            origin: '+',
            content: "x\n".to_string(),
            old_lineno: None,
            new_lineno: None,
        });
    }
    process_diff(mode, Traversal { events, complete: true }, &HighlightAssets::without_themes())
}

#[test]
fn defaults() {
    let state = AppState::default();
    assert_eq!(state.mode, Mode::Normal);
    assert_eq!(state.focus, PanelFocus::FileList);
    assert_eq!(state.file_list_state, ListSelection { selected: None, offset: 0 });
    assert_eq!((state.left_pct, state.center_pct, state.right_pct), (20, 55, 25));
    assert_eq!(state.diff_mode, DiffMode::Unstaged);
    assert_eq!((state.diff_scroll, state.comments_scroll, state.help_scroll), (0, 0, 0));
    assert!(state.diff_lines.is_empty() && state.file_summaries.is_empty());
    assert!(state.hunk_offsets.is_empty());
    assert!(!state.diff_loading && !state.has_unsaved_comments);
    assert_eq!(state.pending_request, None);
    assert_eq!(Mode::default(), Mode::Normal);
    assert_eq!(PanelFocus::default(), PanelFocus::FileList);
    assert_eq!(DiffMode::default(), DiffMode::Unstaged);
}

#[test]
fn list_selection_moves_and_saturates() {
    let mut list = ListSelection::new();
    list.scroll_down_by(3);
    assert_eq!(list.selected, Some(3));
    list.scroll_up_by(1);
    assert_eq!(list.selected, Some(2));
    list.scroll_up_by(5);
    assert_eq!(list.selected, Some(0));
    list.select_last();
    assert_eq!(list.selected, Some(usize::MAX));
    list.scroll_down_by(1);
    assert_eq!(list.selected, Some(usize::MAX));
    list.select_first();
    assert_eq!(list.selected, Some(0));
    let mut fresh = ListSelection { selected: None, offset: 7 };
    fresh.scroll_up_by(2);
    assert_eq!(fresh, ListSelection { selected: Some(0), offset: 7 });
}

#[test]
fn scrolling_follows_the_focus() {
    let mut state = AppState::default();
    state.scroll_down(2);
    assert_eq!(state.file_list_state.selected, Some(2));
    assert_eq!(state.diff_scroll, 0);
    state.focus = PanelFocus::Diff;
    state.scroll_down(5);
    state.scroll_up(2);
    assert_eq!(state.diff_scroll, 3);
    state.scroll_up(9);
    assert_eq!(state.diff_scroll, 0);
    state.diff_scroll = usize::MAX - 1;
    state.scroll_down(5);
    assert_eq!(state.diff_scroll, usize::MAX);
    state.focus = PanelFocus::Comments;
    state.comments_scroll = u16::MAX - 1;
    state.scroll_down(5);
    assert_eq!(state.comments_scroll, u16::MAX);
    state.scroll_up(u16::MAX);
    assert_eq!(state.comments_scroll, 0);
    assert_eq!(state.file_list_state.selected, Some(2));
}

#[test]
fn top_and_bottom() {
    let mut state = AppState::default();
    state.apply_git_result(payload(DiffMode::Unstaged, 3));
    assert_eq!(state.diff_lines.len(), 6);
    state.scroll_bottom();
    assert_eq!(state.file_list_state.selected, Some(usize::MAX));
    state.scroll_top();
    assert_eq!(state.file_list_state.selected, Some(0));
    state.focus = PanelFocus::Diff;
    state.scroll_bottom();
    assert_eq!(state.diff_scroll, 5);
    state.scroll_top();
    assert_eq!(state.diff_scroll, 0);
    state.focus = PanelFocus::Comments;
    state.scroll_bottom();
    assert_eq!(state.comments_scroll, u16::MAX);
    state.scroll_top();
    assert_eq!(state.comments_scroll, 0);
    let mut empty = AppState::default();
    empty.focus = PanelFocus::Diff;
    empty.scroll_bottom();
    assert_eq!(empty.diff_scroll, 0);
}

#[test]
fn pages_use_the_cached_height_and_move_at_least_a_line() {
    let mut state = AppState::default();
    state.focus = PanelFocus::Diff;
    state.half_page_down();
    assert_eq!(state.diff_scroll, 1);
    state.full_page_down();
    assert_eq!(state.diff_scroll, 2);
    state.diff_viewport_height = 21;
    state.half_page_down();
    assert_eq!(state.diff_scroll, 12);
    state.full_page_down();
    assert_eq!(state.diff_scroll, 33);
    state.half_page_up();
    assert_eq!(state.diff_scroll, 23);
    state.full_page_up();
    assert_eq!(state.diff_scroll, 2);
    state.focus = PanelFocus::Comments;
    state.comments_viewport_height = 1;
    state.half_page_down();
    assert_eq!(state.comments_scroll, 1);
    state.focus = PanelFocus::FileList;
    state.file_list_viewport_height = 8;
    state.full_page_down();
    assert_eq!(state.file_list_state.selected, Some(8));
    state.half_page_up();
    assert_eq!(state.file_list_state.selected, Some(4));
}

#[test]
fn file_selection_moves_whatever_the_focus() {
    let mut state = AppState::default();
    state.focus = PanelFocus::Comments;
    state.next_file();
    state.next_file();
    assert_eq!(state.file_list_state.selected, Some(2));
    state.prev_file();
    assert_eq!(state.file_list_state.selected, Some(1));
    assert_eq!(state.focus, PanelFocus::Comments);
}

#[test]
fn hunk_navigation() {
    let mut state = AppState::default();
    state.prev_hunk();
    state.next_hunk();
    assert_eq!((state.hunk_cursor, state.diff_scroll), (0, 0));
    state.apply_git_result(payload(DiffMode::Unstaged, 3));
    assert_eq!(state.hunk_offsets, vec![0, 2, 4]);
    state.next_hunk();
    assert_eq!((state.hunk_cursor, state.diff_scroll), (1, 2));
    state.next_hunk();
    state.next_hunk();
    assert_eq!((state.hunk_cursor, state.diff_scroll), (2, 4));
    state.prev_hunk();
    assert_eq!((state.hunk_cursor, state.diff_scroll), (1, 2));
    state.prev_hunk();
    state.prev_hunk();
    assert_eq!((state.hunk_cursor, state.diff_scroll), (0, 0));
}

#[test]
fn hunk_cursor_past_the_end_comes_back() {
    let mut state = AppState::default();
    state.apply_git_result(payload(DiffMode::Unstaged, 3));
    state.hunk_cursor = 9;
    state.prev_hunk();
    assert_eq!((state.hunk_cursor, state.diff_scroll), (2, 4));
    state.hunk_cursor = usize::MAX;
    state.next_hunk();
    assert_eq!((state.hunk_cursor, state.diff_scroll), (2, 4));
}

#[test]
fn result_replaces_content_and_keeps_position_for_the_same_mode() {
    let mut state = AppState::default();
    state.diff_loading = true;
    state.apply_git_result(payload(DiffMode::Unstaged, 3));
    assert!(!state.diff_loading);
    assert_eq!(state.file_summaries.len(), 1);
    state.focus = PanelFocus::Diff;
    state.scroll_down(4);
    state.next_hunk();
    state.diff_scroll = 3;
    state.apply_git_result(payload(DiffMode::Unstaged, 2));
    assert_eq!(state.diff_mode, DiffMode::Unstaged);
    assert_eq!(state.hunk_offsets, vec![0, 2]);
    assert_eq!(state.diff_lines.len(), 4);
    assert_eq!((state.diff_scroll, state.hunk_cursor), (3, 1));
}

#[test]
fn result_of_another_mode_resets_position() {
    let mut state = AppState::default();
    state.apply_git_result(payload(DiffMode::Unstaged, 3));
    state.diff_scroll = 3;
    state.hunk_cursor = 2;
    state.apply_git_result(payload(DiffMode::Staged, 3));
    assert_eq!(state.diff_mode, DiffMode::Staged);
    assert_eq!((state.diff_scroll, state.hunk_cursor), (0, 0));
}

#[test]
fn jump_to_selected_file() {
    let mut state = AppState::default();
    state.diff_scroll = 5;
    state.jump_to_selected_file();
    assert_eq!(state.focus, PanelFocus::FileList);
    assert_eq!(state.diff_scroll, 5);
    state.file_list_state.selected = Some(4);
    state.hunk_cursor = 2;
    state.jump_to_selected_file();
    assert_eq!(state.selected_file_index, 4);
    assert_eq!((state.diff_scroll, state.hunk_cursor), (0, 0));
    assert_eq!(state.focus, PanelFocus::Diff);
}

#[test]
fn shrinking_the_diff_panel() {
    let mut state = AppState::default();
    state.shrink_diff_panel();
    assert_eq!((state.left_pct, state.center_pct, state.right_pct), (22, 50, 28));
    state.center_pct = 23;
    state.shrink_diff_panel();
    assert_eq!((state.left_pct, state.center_pct, state.right_pct), (23, 20, 30));
    state.shrink_diff_panel();
    assert_eq!((state.left_pct, state.center_pct, state.right_pct), (23, 20, 30));
    state.center_pct = 21;
    state.shrink_diff_panel();
    assert_eq!((state.left_pct, state.center_pct, state.right_pct), (23, 20, 31));
}

#[test]
fn growing_the_diff_panel() {
    let mut state = AppState::default();
    state.grow_diff_panel();
    assert_eq!((state.left_pct, state.center_pct, state.right_pct), (18, 60, 22));
    state.left_pct = 6;
    state.center_pct = 70;
    state.right_pct = 24;
    state.grow_diff_panel();
    assert_eq!((state.left_pct, state.center_pct, state.right_pct), (5, 74, 21));
    state.grow_diff_panel();
    assert_eq!((state.left_pct, state.center_pct, state.right_pct), (5, 77, 18));
    state.grow_diff_panel();
    assert_eq!((state.left_pct, state.center_pct, state.right_pct), (5, 79, 16));
    state.grow_diff_panel();
    assert_eq!((state.left_pct, state.center_pct, state.right_pct), (5, 80, 15));
    state.grow_diff_panel();
    assert_eq!((state.left_pct, state.center_pct, state.right_pct), (5, 80, 15));
    state.left_pct = 3;
    state.center_pct = 50;
    state.right_pct = 4;
    state.grow_diff_panel();
    assert_eq!((state.left_pct, state.center_pct, state.right_pct), (3, 50, 4));
}

#[test]
fn visible_range_of_the_diff() {
    let mut state = AppState::default();
    assert_eq!(state.visible_range(10), (0, 0));
    state.apply_git_result(payload(DiffMode::Unstaged, 3));
    assert_eq!(state.visible_range(4), (0, 4));
    assert_eq!(state.visible_range(10), (0, 6));
    state.diff_scroll = 4;
    assert_eq!(state.visible_range(4), (4, 6));
    state.diff_scroll = 100;
    assert_eq!(state.visible_range(4), (5, 6));
    assert_eq!(state.visible_range(0), (5, 5));
    state.diff_scroll = usize::MAX;
    assert_eq!(state.visible_range(u16::MAX), (5, 6));
}

#[test]
fn request_is_taken_once() {
    let mut state = AppState::default();
    assert_eq!(state.take_request(), None);
    state.pending_request = Some(GitRequest::LoadDiff(DiffMode::Staged));
    assert_eq!(state.take_request(), Some(GitRequest::LoadDiff(DiffMode::Staged)));
    assert_eq!(state.take_request(), None);
}

#[test]
fn panel_rect_contains_its_cells() {
    let rect = PanelRect { x: 1, y: 2, width: 3, height: 4 };
    assert!(rect.contains(1, 2));
    assert!(rect.contains(3, 5));
    assert!(!rect.contains(4, 2));
    assert!(!rect.contains(1, 6));
    assert!(!rect.contains(0, 2));
    assert!(!rect.contains(1, 1));
    let empty = PanelRect { x: 1, y: 2, width: 0, height: 4 };
    assert!(!empty.contains(1, 2));
    let edge = PanelRect { x: u16::MAX - 1, y: 0, width: 10, height: 1 };
    assert!(edge.contains(u16::MAX - 1, 0));
    assert!(!edge.contains(u16::MAX, 0));
}
