use airev::records::{Comment, DiffLine, DiffLineKind, FileReviewState, Hunk, Session};

#[test]
fn a_session_starts_with_both_times_equal() {
    let session = Session::started(
        "id-1".to_string(),
        "/tmp/repo".to_string(),
        "staged".to_string(),
        "".to_string(),
        1_700_000_000,
    );
    assert_eq!(
        session,
        Session {
            id: "id-1".to_string(),
            repo_path: "/tmp/repo".to_string(),
            diff_mode: "staged".to_string(),
            diff_args: String::new(),
            created_at: 1_700_000_000,
            updated_at: 1_700_000_000,
        }
    );
}

#[test]
fn toggling_marks_and_unmarks() {
    let on = FileReviewState::toggled("s".to_string(), "src/main.rs".to_string(), false, 42);
    assert_eq!(
        on,
        FileReviewState {
            session_id: "s".to_string(),
            file_path: "src/main.rs".to_string(),
            reviewed: true,
            reviewed_at: Some(42),
        }
    );
    let off = FileReviewState::toggled("s".to_string(), "src/main.rs".to_string(), on.reviewed, 43);
    assert!(!off.reviewed);
    assert_eq!(off.reviewed_at, None);
}

#[test]
fn records_hold_what_they_are_given() {
    let comment = Comment {
        id: "c".to_string(),
        session_id: "s".to_string(),
        file_path: "a.rs".to_string(),
        line_number: Some(3),
        hunk_offset: None,
        comment_type: "question".to_string(),
        severity: "minor".to_string(),
        body: "why?".to_string(),
        created_at: 1,
        resolved_at: None,
        thread_id: None,
    };
    assert_eq!(comment.clone(), comment);
    let hunk = Hunk {
        id: "h".to_string(),
        file_path: "a.rs".to_string(),
        old_start: 1,
        old_lines: 2,
        new_start: 1,
        new_lines: 3,
        header: "@@ -1,2 +1,3 @@".to_string(),
        body: "+x\n".to_string(),
    };
    assert_eq!(hunk.new_lines, 3);
    let line = DiffLine {
        kind: DiffLineKind::Added,
        content: "x\n".to_string(),
        old_lineno: None,
        new_lineno: Some(1),
    };
    assert_eq!(line.kind, DiffLineKind::Added);
    assert_ne!(DiffLineKind::Removed, DiffLineKind::Context);
}
