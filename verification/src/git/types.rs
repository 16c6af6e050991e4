//! Owned data exchanged between the user interface and the diff worker.
//!
//! Nothing here borrows: every value can be moved across a thread boundary
//! and stored in application state as it is.

use vstd::prelude::*;
use crate::git::style::{StyledLine, LineView, lines_view};

verus! {

/// A single line of diff output.
///
/// The origin is `'+'` for an added line, `'-'` for a removed line, `' '`
/// for context, `'H'` for a hunk header and `'F'` for a file header.
#[derive(Debug, Clone, PartialEq, Eq)]
pub struct OwnedDiffLine {
    /// Origin tag of the line.
    pub origin: char,
    /// Full line content, trailing newline included.
    pub content: String,
    /// Line number in the old file, if the line exists there.
    pub old_lineno: Option<u32>,
    /// Line number in the new file, if the line exists there.
    pub new_lineno: Option<u32>,
}

/// Mathematical value of an [`OwnedDiffLine`].
pub struct DiffLineView {
    pub origin: char,
    pub content: Seq<char>,
    pub old_lineno: Option<u32>,
    pub new_lineno: Option<u32>,
}

impl View for OwnedDiffLine {
    type V = DiffLineView;

    open spec fn view(&self) -> DiffLineView {
        DiffLineView {
            origin: self.origin,
            content: self.content@,
            old_lineno: self.old_lineno,
            new_lineno: self.new_lineno,
        }
    }
}

/// The values of a sequence of diff lines, in order.
pub open spec fn diff_lines_view(lines: Seq<OwnedDiffLine>) -> Seq<DiffLineView> {
    Seq::new(lines.len(), |i: int| lines[i]@)
}

/// One contiguous change block of a diff.
#[derive(Debug, Clone, PartialEq, Eq)]
pub struct OwnedDiffHunk {
    /// The raw `@@ -a,b +c,d @@` header text.
    pub header: String,
    /// Starting line number in the old file.
    pub old_start: u32,
    /// Starting line number in the new file.
    pub new_start: u32,
    /// The lines of the hunk, in order.
    pub lines: Vec<OwnedDiffLine>,
}

/// Mathematical value of an [`OwnedDiffHunk`].
pub struct HunkView {
    pub header: Seq<char>,
    pub old_start: u32,
    pub new_start: u32,
    pub lines: Seq<DiffLineView>,
}

impl View for OwnedDiffHunk {
    type V = HunkView;

    open spec fn view(&self) -> HunkView {
        HunkView {
            header: self.header@,
            old_start: self.old_start,
            new_start: self.new_start,
            lines: diff_lines_view(self.lines@),
        }
    }
}

/// The values of a sequence of hunks, in order.
pub open spec fn hunks_view(hunks: Seq<OwnedDiffHunk>) -> Seq<HunkView> {
    Seq::new(hunks.len(), |i: int| hunks[i]@)
}

/// Per-file statistics for the file list.
#[derive(Debug, Clone, PartialEq, Eq)]
pub struct FileSummary {
    /// Repository-relative path of the file.
    pub path: String,
    /// Status letter: `'M'` modified, `'A'` added, `'D'` deleted, `'R'` renamed.
    pub status: char,
    /// Number of added lines seen for this file.
    pub added: usize,
    /// Number of removed lines seen for this file.
    pub removed: usize,
}

/// Mathematical value of a [`FileSummary`].
pub struct FileSummaryView {
    pub path: Seq<char>,
    pub status: char,
    pub added: nat,
    pub removed: nat,
}

impl View for FileSummary {
    type V = FileSummaryView;

    open spec fn view(&self) -> FileSummaryView {
        FileSummaryView {
            path: self.path@,
            status: self.status,
            added: self.added as nat,
            removed: self.removed as nat,
        }
    }
}

/// The values of a sequence of file summaries, in order.
pub open spec fn files_view(files: Seq<FileSummary>) -> Seq<FileSummaryView> {
    Seq::new(files.len(), |i: int| files[i]@)
}

/// The comparison a diff is computed for.
#[derive(Debug, Clone, Copy, PartialEq, Eq, Structural)]
pub enum DiffMode {
    /// Working directory against the index (the default).
    Unstaged,
    /// Index against the head commit.
    Staged,
    /// Two explicit revisions.
    CommitRange,
    /// Head commit against the default branch.
    BranchComparison,
}

impl Default for DiffMode {
    fn default() -> (r: Self)
        ensures
            r == DiffMode::Unstaged,
    {
        DiffMode::Unstaged
    }
}

/// A command sent from the user interface to the diff worker.
#[derive(Debug, Clone, PartialEq, Eq)]
pub enum GitRequest {
    /// Load the diff of a mode that needs no further parameters.
    LoadDiff(DiffMode),
    /// Load the diff between two explicit revisions.
    LoadDiffRange {
        /// The older revision.
        from: String,
        /// The newer revision.
        to: String,
    },
}

/// The result of one processed request, delivered back to the user interface.
#[derive(Debug, Clone, PartialEq, Eq)]
pub struct GitResultPayload {
    /// The mode that was requested.
    pub mode: DiffMode,
    /// All hunks of the comparison, in file order and then in-file order.
    pub hunks: Vec<OwnedDiffHunk>,
    /// One summary per changed file, in diff order.
    pub files: Vec<FileSummary>,
    /// The render-ready lines of all hunks, flattened.
    pub highlighted_lines: Vec<StyledLine>,
    /// Index in `highlighted_lines` of each hunk's header line.
    pub hunk_offsets: Vec<usize>,
    /// Index in `highlighted_lines` at which each file's first hunk begins.
    pub file_line_offsets: Vec<usize>,
}

/// Mathematical value of a [`GitResultPayload`].
pub struct PayloadView {
    pub mode: DiffMode,
    pub hunks: Seq<HunkView>,
    pub files: Seq<FileSummaryView>,
    pub highlighted_lines: Seq<LineView>,
    pub hunk_offsets: Seq<usize>,
    pub file_line_offsets: Seq<usize>,
}

impl View for GitResultPayload {
    type V = PayloadView;

    open spec fn view(&self) -> PayloadView {
        PayloadView {
            mode: self.mode,
            hunks: hunks_view(self.hunks@),
            files: files_view(self.files@),
            highlighted_lines: lines_view(self.highlighted_lines@),
            hunk_offsets: self.hunk_offsets@,
            file_line_offsets: self.file_line_offsets@,
        }
    }
}

} // verus!
