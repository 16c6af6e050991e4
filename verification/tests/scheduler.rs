use airev::app::{AppState, Mode, PanelFocus};
use airev::event::{AppEvent, KeyCode, KeyInput, KeyKind, MouseInput, MouseKind};
use airev::git::extract::{DeltaKind, DiffEvent, Traversal};
use airev::git::highlight::HighlightAssets;
use airev::git::types::{DiffMode, GitRequest, GitResultPayload};
use airev::git::worker::process_diff;
use airev::scheduler::{deliver, schedule, serve, Turn, Wakeup};
use airev::ui::keybindings::KeyAction;

fn key(code: KeyCode) -> KeyInput {
    KeyInput { code, control: false, kind: KeyKind::Press }
}

fn payload(mode: DiffMode) -> GitResultPayload {
    let events = vec![
        DiffEvent::File { path: Some("a.rs".to_string()), status: DeltaKind::Modified },
        DiffEvent::Hunk { header: "@@".to_string(), old_start: 1, new_start: 1 },
        DiffEvent::Line {
            origin: '+',
            content: "x\n".to_string(),
            old_lineno: None,
            new_lineno: Some(1),
        },
    ];
    process_diff(mode, Traversal { events, complete: true }, &HighlightAssets::without_themes())
}

#[test]
fn only_render_redraws() {
    assert_eq!(schedule(&Wakeup::Event(AppEvent::Render)), Turn { redraw: true, exit: false });
    let quiet = [
        Wakeup::CancelCheck,
        Wakeup::Event(AppEvent::Tick),
        Wakeup::Event(AppEvent::Resize(1, 1)),
        Wakeup::Event(AppEvent::FileChanged),
        Wakeup::Event(AppEvent::DbResult),
        Wakeup::Event(AppEvent::GitResult(Box::new(payload(DiffMode::Unstaged)))),
        Wakeup::Event(AppEvent::Key(key(KeyCode::Char('j')))),
        Wakeup::Event(AppEvent::Key(key(KeyCode::Char('q')))),
        Wakeup::Event(AppEvent::Key(key(KeyCode::Esc))),
        Wakeup::Event(AppEvent::Mouse(MouseInput { kind: MouseKind::LeftDown, column: 0, row: 0 })),
    ];
    for wakeup in &quiet {
        let turn = schedule(wakeup);
        assert_eq!(turn, Turn { redraw: false, exit: false });
        assert!(!turn.ends_loop(false));
    }
}

#[test]
fn quit_paths_end_the_loop() {
    let ends = [Wakeup::Closed, Wakeup::Event(AppEvent::Quit)];
    for wakeup in ends {
        let turn = schedule(&wakeup);
        assert_eq!(turn, Turn { redraw: false, exit: true });
        assert!(turn.ends_loop(false));
        let mut state = AppState::default();
        state.has_unsaved_comments = true;
        assert_eq!(serve(wakeup, &mut state), Turn { redraw: false, exit: true });
        assert_eq!(state.mode, Mode::Normal);
    }
}

#[test]
fn cancellation_ends_the_loop_on_any_wakeup() {
    assert!(schedule(&Wakeup::CancelCheck).ends_loop(true));
    assert!(schedule(&Wakeup::Event(AppEvent::Tick)).ends_loop(true));
    assert!(schedule(&Wakeup::Closed).ends_loop(true));
    let render = schedule(&Wakeup::Event(AppEvent::Render));
    assert!(render.redraw);
    assert!(render.ends_loop(true));
    assert!(!render.ends_loop(false));
    let mut state = AppState::default();
    assert!(serve(Wakeup::CancelCheck, &mut state).ends_loop(true));
    assert!(!serve(Wakeup::CancelCheck, &mut state).ends_loop(false));
}

#[test]
fn serving_render_asks_for_one_redraw_and_leaves_the_state() {
    let mut state = AppState::default();
    state.diff_scroll = 4;
    assert_eq!(serve(Wakeup::Event(AppEvent::Render), &mut state), Turn { redraw: true, exit: false });
    assert_eq!(state.diff_scroll, 4);
    assert_eq!(serve(Wakeup::Event(AppEvent::Tick), &mut state), Turn { redraw: false, exit: false });
    assert_eq!(serve(Wakeup::CancelCheck, &mut state), Turn { redraw: false, exit: false });
}

#[test]
fn serving_a_key_goes_through_the_dispatch() {
    let mut state = AppState::default();
    let turn = serve(Wakeup::Event(AppEvent::Key(key(KeyCode::Char('L')))), &mut state);
    assert_eq!(turn, Turn { redraw: false, exit: false });
    assert_eq!(state.focus, PanelFocus::Diff);
    let turn = serve(Wakeup::Event(AppEvent::Key(key(KeyCode::Tab))), &mut state);
    assert_eq!(turn, Turn { redraw: false, exit: false });
    assert_eq!(state.take_request(), Some(GitRequest::LoadDiff(DiffMode::Staged)));
    let turn = serve(Wakeup::Event(AppEvent::Key(key(KeyCode::Char('Q')))), &mut state);
    assert_eq!(turn, Turn { redraw: false, exit: false });
    let turn = serve(Wakeup::Event(AppEvent::Key(key(KeyCode::Char('q')))), &mut state);
    assert_eq!(turn, Turn { redraw: false, exit: true });
    state.has_unsaved_comments = true;
    let turn = serve(Wakeup::Event(AppEvent::Key(key(KeyCode::Char('q')))), &mut state);
    assert_eq!(turn, Turn { redraw: false, exit: false });
    assert_eq!(state.mode, Mode::ConfirmQuit);
    let turn = serve(Wakeup::Event(AppEvent::Key(key(KeyCode::Char('y')))), &mut state);
    assert_eq!(turn, Turn { redraw: false, exit: true });
}

#[test]
fn serving_a_result_tags_the_state_with_its_mode() {
    let mut state = AppState::default();
    state.diff_mode = DiffMode::Staged;
    state.diff_loading = true;
    state.diff_scroll = 9;
    let stale = payload(DiffMode::BranchComparison);
    let turn = serve(Wakeup::Event(AppEvent::GitResult(Box::new(stale))), &mut state);
    assert_eq!(turn, Turn { redraw: false, exit: false });
    assert_eq!(state.diff_mode, DiffMode::BranchComparison);
    assert_eq!(state.diff_scroll, 0);
    assert!(!state.diff_loading);
    assert_eq!(state.diff_lines.len(), 2);
    assert_eq!(state.hunk_offsets, vec![0]);
}

#[test]
fn delivery_by_kind_of_event() {
    let mut state = AppState::default();
    assert_eq!(deliver(AppEvent::Key(key(KeyCode::Char('j'))), &mut state), KeyAction::Continue);
    assert_eq!(state.file_list_state.selected, Some(1));
    state.focus = PanelFocus::Diff;
    let wheel = MouseInput { kind: MouseKind::ScrollDown, column: 0, row: 0 };
    assert_eq!(deliver(AppEvent::Mouse(wheel), &mut state), KeyAction::Continue);
    assert_eq!(state.diff_scroll, 3);
    assert_eq!(deliver(AppEvent::Key(key(KeyCode::Char('q'))), &mut state), KeyAction::Quit);
    for event in [AppEvent::Tick, AppEvent::Render, AppEvent::Quit, AppEvent::Resize(9, 9)] {
        assert_eq!(deliver(event, &mut state), KeyAction::Continue);
    }
    assert_eq!(state.diff_scroll, 3);
    assert_eq!(deliver(AppEvent::GitResult(Box::new(payload(DiffMode::Unstaged))), &mut state), KeyAction::Continue);
    assert_eq!(state.file_summaries.len(), 1);
    assert_eq!(state.diff_scroll, 3);
}
