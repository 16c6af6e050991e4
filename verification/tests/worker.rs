use airev::git::extract::{DeltaKind, DiffEvent, Traversal};
use airev::git::highlight::HighlightAssets;
use airev::git::resolve::{
    get_diff_for_mode, get_diff_for_range, plan_request, DiffPlan, Endpoint, ResolveError,
};
use airev::git::style::{Color, SpanStyle, StyledLine, StyledSpan};
use airev::git::types::{DiffMode, GitRequest};
use airev::git::worker::{file_line_offsets, handle_request, process_diff, WorkerState};

fn whole(events: Vec<DiffEvent>) -> Traversal {
    Traversal { events, complete: true }
}

fn file(path: &str) -> DiffEvent {
    DiffEvent::File { path: Some(path.to_string()), status: DeltaKind::Modified }
}

fn hunk(header: &str) -> DiffEvent {
    DiffEvent::Hunk { header: header.to_string(), old_start: 1, new_start: 1 }
}

fn line(origin: char, content: &str) -> DiffEvent {
    DiffEvent::Line { origin, content: content.to_string(), old_lineno: None, new_lineno: None }
}

fn colored(text: &str, color: Color) -> StyledLine {
    StyledLine {
        spans: vec![StyledSpan {
            text: text.to_string(),
            style: SpanStyle { fg: Some(color), bg: None, bold: false, italic: false, underlined: false },
        }],
    }
}

fn all_modes() -> [DiffMode; 4] {
    [DiffMode::Unstaged, DiffMode::Staged, DiffMode::CommitRange, DiffMode::BranchComparison]
}

#[test]
fn diff_without_deltas_gives_an_empty_payload() {
    let assets = HighlightAssets::load_defaults();
    let payload = process_diff(DiffMode::Staged, whole(Vec::new()), &assets);
    assert_eq!(payload.mode, DiffMode::Staged);
    assert!(payload.hunks.is_empty());
    assert!(payload.files.is_empty());
    assert!(payload.highlighted_lines.is_empty());
    assert!(payload.hunk_offsets.is_empty());
    assert!(payload.file_line_offsets.is_empty());
}

#[test]
fn resolution_failure_gives_an_empty_payload_for_every_mode() {
    let assets = HighlightAssets::load_defaults();
    for mode in all_modes() {
        for error in [ResolveError::RangeRequired, ResolveError::Unresolvable] {
            let payload = handle_request(mode, Err(error), &assets);
            assert_eq!(payload.mode, mode);
            assert!(payload.hunks.is_empty());
            assert!(payload.files.is_empty());
            assert!(payload.highlighted_lines.is_empty());
            assert!(payload.hunk_offsets.is_empty());
            assert!(payload.file_line_offsets.is_empty());
        }
    }
}

#[test]
fn resolved_request_is_processed() {
    let assets = HighlightAssets::without_themes();
    let events = vec![file("a.rs"), hunk("@@ one"), line('+', "x\n")];
    let payload = handle_request(DiffMode::BranchComparison, Ok(whole(events.clone())), &assets);
    assert_eq!(payload, process_diff(DiffMode::BranchComparison, whole(events), &assets));
    assert_eq!(payload.mode, DiffMode::BranchComparison);
    assert_eq!(payload.hunks.len(), 1);
    assert_eq!(payload.highlighted_lines.len(), 2);
}

#[test]
fn payload_of_two_files() {
    let assets = HighlightAssets::without_themes();
    let payload = process_diff(
        DiffMode::Unstaged,
        whole(vec![
            file("a.rs"),
            hunk("@@ a1"),
            line(' ', " one\n"),
            line('-', "-two\n"),
            hunk("@@ a2"),
            line('+', "+three\n"),
            file("b.rs"),
            hunk("@@ b1"),
            line('+', "+four\n"),
            line('+', "+five\n"),
            line('+', "+six\n"),
        ]),
        &assets,
    );
    assert_eq!(payload.mode, DiffMode::Unstaged);
    assert_eq!(payload.hunks.len(), 3);
    assert_eq!(payload.files.len(), 2);
    assert_eq!((payload.files[0].added, payload.files[0].removed), (1, 1));
    assert_eq!((payload.files[1].added, payload.files[1].removed), (3, 0));
    assert_eq!(payload.hunk_offsets, vec![0, 3, 5]);
    assert_eq!(payload.file_line_offsets, vec![0, 5]);
    assert_eq!(
        payload.highlighted_lines,
        vec![
            colored("@@ a1", Color::Cyan),
            colored("   one", Color::DarkGray),
            colored("- -two", Color::Red),
            colored("@@ a2", Color::Cyan),
            colored("+ +three", Color::Green),
            colored("@@ b1", Color::Cyan),
            colored("+ +four", Color::Green),
            colored("+ +five", Color::Green),
            colored("+ +six", Color::Green),
        ]
    );
}

#[test]
fn offsets_hold_for_highlighted_payloads() {
    let assets = HighlightAssets::load_defaults();
    let payload = process_diff(
        DiffMode::Unstaged,
        whole(vec![
            file("src/lib.rs"),
            hunk("@@ a1"),
            line('-', "-fn old() {}\n"),
            line('+', "+fn new() {}\n"),
            file("empty.rs"),
            file("src/main.rs"),
            hunk("@@ b1"),
            line(' ', " fn main() {}\n"),
            hunk("@@ b2"),
            file("last.rs"),
        ]),
        &assets,
    );
    assert_eq!(payload.hunk_offsets, vec![0, 3, 5]);
    assert_eq!(payload.highlighted_lines.len(), 6);
    assert_eq!(payload.files.len(), 4);
    assert_eq!(payload.file_line_offsets.len(), payload.files.len());
    assert_eq!(payload.file_line_offsets, vec![0, 0, 3, 0]);
    for pair in payload.hunk_offsets.windows(2) {
        assert!(pair[0] < pair[1]);
    }
    for (i, offset) in payload.hunk_offsets.iter().enumerate() {
        assert_eq!(payload.highlighted_lines[*offset].spans.len(), 1);
        assert_eq!(payload.highlighted_lines[*offset].spans[0].text, payload.hunks[i].header);
    }
}

#[test]
fn file_offsets_follow_hunk_offsets() {
    assert_eq!(file_line_offsets(&vec![0, 4, 9], &vec![0, 2]), vec![0, 9]);
    assert_eq!(file_line_offsets(&vec![0, 4, 9], &vec![0, 1, 1, 3]), vec![0, 0, 4, 0]);
    assert_eq!(file_line_offsets(&Vec::new(), &vec![0, 0]), vec![0, 0]);
    assert_eq!(file_line_offsets(&vec![0, 4], &Vec::new()), Vec::<usize>::new());
    assert_eq!(file_line_offsets(&vec![7], &vec![0, 5]), vec![7, 0]);
}

#[test]
fn plans_by_mode() {
    assert_eq!(get_diff_for_mode(DiffMode::Unstaged), Ok(DiffPlan::IndexToWorkdir));
    assert_eq!(get_diff_for_mode(DiffMode::Staged), Ok(DiffPlan::HeadToIndex));
    assert_eq!(
        get_diff_for_mode(DiffMode::BranchComparison),
        Ok(DiffPlan::TreeToTree { from: Endpoint::Revision("main".to_string()), to: Endpoint::Head })
    );
    assert_eq!(get_diff_for_mode(DiffMode::CommitRange), Err(ResolveError::RangeRequired));
}

#[test]
fn plan_of_a_range() {
    assert_eq!(
        get_diff_for_range("v1".to_string(), "HEAD~2".to_string()),
        DiffPlan::TreeToTree {
            from: Endpoint::Revision("v1".to_string()),
            to: Endpoint::Revision("HEAD~2".to_string()),
        }
    );
}

#[test]
fn requests_are_tagged_with_their_mode() {
    for mode in all_modes() {
        let (tag, plan) = plan_request(GitRequest::LoadDiff(mode));
        assert_eq!(tag, mode);
        assert_eq!(plan, get_diff_for_mode(mode));
        assert_eq!(plan.is_err(), mode == DiffMode::CommitRange);
    }
    let (tag, plan) =
        plan_request(GitRequest::LoadDiffRange { from: "a".to_string(), to: "b".to_string() });
    assert_eq!(tag, DiffMode::CommitRange);
    assert_eq!(plan, Ok(get_diff_for_range("a".to_string(), "b".to_string())));
}

#[test]
fn worker_that_cannot_open_never_runs() {
    let state = WorkerState::start(false);
    assert!(!state.is_running());
    let (state, serve) = state.received(Some(GitRequest::LoadDiff(DiffMode::Staged)));
    assert_eq!(state, WorkerState::Stopped);
    assert_eq!(serve, None);
}

#[test]
fn worker_serves_requests_in_turn() {
    let state = WorkerState::start(true);
    assert!(state.is_running());
    let first = GitRequest::LoadDiff(DiffMode::Staged);
    let (state, serve) = state.received(Some(first.clone()));
    assert_eq!(serve, Some(first));
    let state = state.sent(true);
    assert!(state.is_running());
    let second = GitRequest::LoadDiffRange { from: "a".to_string(), to: "b".to_string() };
    let (state, serve) = state.received(Some(second.clone()));
    assert_eq!(serve, Some(second));
    assert!(state.sent(true).is_running());
}

#[test]
fn closed_source_stops_the_worker_for_good() {
    let (state, serve) = WorkerState::start(true).received(None);
    assert_eq!(serve, None);
    assert!(!state.is_running());
    let (state, serve) = state.received(Some(GitRequest::LoadDiff(DiffMode::Unstaged)));
    assert_eq!(serve, None);
    assert!(!state.is_running());
    assert!(!state.sent(true).is_running());
}

#[test]
fn lost_receiver_stops_the_worker() {
    let state = WorkerState::start(true).sent(false);
    assert!(!state.is_running());
    let (state, serve) = state.received(Some(GitRequest::LoadDiff(DiffMode::Unstaged)));
    assert_eq!(serve, None);
    assert_eq!(state, WorkerState::Stopped);
}

#[test]
fn file_without_hunks_starts_at_zero_whatever_follows() {
    let assets = HighlightAssets::without_themes();
    let payload = process_diff(
        DiffMode::Unstaged,
        whole(vec![
            file("a.rs"),
            hunk("@@ a"),
            file("none.rs"),
            file("b.rs"),
            hunk("@@ b"),
        ]),
        &assets,
    );
    assert_eq!(payload.hunk_offsets, vec![0, 1]);
    assert_eq!(payload.file_line_offsets, vec![0, 0, 1]);
}

#[test]
fn cut_traversal_gives_a_payload_without_the_open_hunk() {
    let assets = HighlightAssets::without_themes();
    let events = vec![file("a.rs"), hunk("@@ one"), line('+', "x\n"), hunk("@@ two"), line('+', "y\n")];
    let cut = Traversal { events: events.clone(), complete: false };
    let payload = handle_request(DiffMode::Unstaged, Ok(cut), &assets);
    assert_eq!(payload.hunks.len(), 1);
    assert_eq!(payload.hunk_offsets, vec![0]);
    assert_eq!(payload.highlighted_lines.len(), 2);
    assert_eq!(payload.files[0].added, 1);
    let full = handle_request(DiffMode::Unstaged, Ok(whole(events)), &assets);
    assert_eq!(full.hunks.len(), 2);
    assert_eq!(full.highlighted_lines.len(), 4);
}

#[test]
fn a_first_file_without_extension_selects_plain_text() {
    let assets = HighlightAssets::load_defaults();
    let body = vec![hunk("@@"), line(' ', " fn main() {}\n")];
    let mut named = vec![file("Makefile")];
    named.extend(body.clone());
    let mut rust = vec![file("main.rs")];
    rust.extend(body);
    let plain = process_diff(DiffMode::Unstaged, whole(named), &assets);
    let coloured = process_diff(DiffMode::Unstaged, whole(rust), &assets);
    assert_eq!(plain.highlighted_lines[1].spans.len(), 2);
    assert!(coloured.highlighted_lines[1].spans.len() > 2);
}
