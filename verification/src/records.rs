//! The records that are kept of a session: the session itself, its comments
//! and which of its files were gone through.
//!
//! Storing them is the caller's part. What a new or changed record holds is
//! decided here.

use vstd::prelude::*;

verus! {

/// A session on one repository, diff mode and set of arguments.
///
/// Each combination of the three has its own session. Starting again on the
/// same combination resumes the most recent one.
#[derive(Debug, Clone, PartialEq, Eq)]
pub struct Session {
    /// Identifier, a UUID in text form.
    pub id: String,
    pub repo_path: String,
    pub diff_mode: String,
    pub diff_args: String,
    /// When the session was created, in seconds since the Unix epoch.
    pub created_at: i64,
    /// When the session was last used, in seconds since the Unix epoch.
    pub updated_at: i64,
}

/// A comment on a hunk or a line within a session.
///
/// `comment_type` is one of `question`, `concern`, `til`, `suggestion`,
/// `praise` and `nitpick`; `severity` is one of `critical`, `major`, `minor`
/// and `info`.
#[derive(Debug, Clone, PartialEq, Eq)]
pub struct Comment {
    /// Identifier, a UUID in text form.
    pub id: String,
    pub session_id: String,
    pub file_path: String,
    pub line_number: Option<i64>,
    pub hunk_offset: Option<i64>,
    pub comment_type: String,
    pub severity: String,
    pub body: String,
    pub created_at: i64,
    pub resolved_at: Option<i64>,
    pub thread_id: Option<String>,
}

/// Whether a file of a session was gone through, and when.
#[derive(Debug, Clone, PartialEq, Eq)]
pub struct FileReviewState {
    pub session_id: String,
    pub file_path: String,
    pub reviewed: bool,
    /// Set while `reviewed` holds, to the time it came to hold.
    pub reviewed_at: Option<i64>,
}

/// A hunk with what is needed to show and to store it.
#[derive(Debug, Clone, PartialEq, Eq)]
pub struct Hunk {
    /// Identifier, derived from the file and the range.
    pub id: String,
    pub file_path: String,
    pub old_start: u32,
    pub old_lines: u32,
    pub new_start: u32,
    pub new_lines: u32,
    pub header: String,
    /// The unified diff text of the hunk.
    pub body: String,
}

/// The kind of change of a diff line.
#[derive(Debug, Clone, Copy, PartialEq, Eq, Structural)]
pub enum DiffLineKind {
    Added,
    Removed,
    Context,
}

/// A line of a hunk with its kind of change.
#[derive(Debug, Clone, PartialEq, Eq)]
pub struct DiffLine {
    pub kind: DiffLineKind,
    pub content: String,
    pub old_lineno: Option<u32>,
    pub new_lineno: Option<u32>,
}

impl Session {
    /// A session that starts at `now`.
    pub fn started(
        id: String,
        repo_path: String,
        diff_mode: String,
        diff_args: String,
        now: i64,
    ) -> (r: Session)
        ensures
            r.id == id && r.repo_path == repo_path && r.diff_mode == diff_mode && r.diff_args
                == diff_args,
            r.created_at == now && r.updated_at == now,
    {
        Session { id, repo_path, diff_mode, diff_args, created_at: now, updated_at: now }
    }
}

impl FileReviewState {
    /// The state of a file after its mark was toggled at `now`: what was
    /// marked is unmarked and loses its time, what was unmarked is marked
    /// and gets `now` as its time.
    pub fn toggled(
        session_id: String,
        file_path: String,
        was_reviewed: bool,
        now: i64,
    ) -> (r: FileReviewState)
        ensures
            r.session_id == session_id && r.file_path == file_path,
            r.reviewed == !was_reviewed,
            r.reviewed_at == (if was_reviewed {
                None
            } else {
                Some(now)
            }),
    {
        let reviewed = !was_reviewed;
        FileReviewState {
            session_id,
            file_path,
            reviewed,
            reviewed_at: if reviewed {
                Some(now)
            } else {
                None
            },
        }
    }
}

} // verus!
