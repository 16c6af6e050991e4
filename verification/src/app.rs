//! Application state: editor mode, panel focus and navigation cursors.

use vstd::prelude::*;
use crate::git::style::StyledLine;
use crate::git::types::{DiffMode, FileSummary, GitRequest, GitResultPayload};

verus! {

/// Editor mode controlling which keybinding set is active.
#[derive(Debug, Clone, Copy, PartialEq, Eq, Structural)]
pub enum Mode {
    /// Normal vim-style navigation mode (the default).
    Normal,
    /// Text insertion mode for comment editing.
    Insert,
    /// Full-screen help overlay is shown above all panels.
    HelpOverlay,
    /// Quit-confirmation dialog shown when unsaved comments exist.
    ConfirmQuit,
}

impl Default for Mode {
    fn default() -> (r: Self)
        ensures
            r == Mode::Normal,
    {
        Mode::Normal
    }
}

/// Which panel currently has keyboard focus.
#[derive(Debug, Clone, Copy, PartialEq, Eq, Structural)]
pub enum PanelFocus {
    /// Left panel showing the list of changed files (the default).
    FileList,
    /// Centre panel showing the unified diff.
    Diff,
    /// Right panel showing comments.
    Comments,
}

impl Default for PanelFocus {
    fn default() -> (r: Self)
        ensures
            r == PanelFocus::FileList,
    {
        PanelFocus::FileList
    }
}

impl PanelFocus {
    /// Position of the panel on screen, counted from the left.
    pub open spec fn position(self) -> int {
        match self {
            PanelFocus::FileList => 0,
            PanelFocus::Diff => 1,
            PanelFocus::Comments => 2,
        }
    }

    /// The panel that precedes `self` in the cycle.
    pub open spec fn spec_prev(self) -> PanelFocus {
        match self {
            PanelFocus::FileList => PanelFocus::Comments,
            PanelFocus::Diff => PanelFocus::FileList,
            PanelFocus::Comments => PanelFocus::Diff,
        }
    }

    /// The panel that follows `self` in the cycle.
    pub open spec fn spec_next(self) -> PanelFocus {
        match self {
            PanelFocus::FileList => PanelFocus::Diff,
            PanelFocus::Diff => PanelFocus::Comments,
            PanelFocus::Comments => PanelFocus::FileList,
        }
    }

    /// The panel that precedes `self` in the cycle, wrapping around.
    pub fn prev(self) -> (r: Self)
        ensures
            r == self.spec_prev(),
            r.position() == (self.position() + 2) % 3,
    {
        match self {
            PanelFocus::FileList => PanelFocus::Comments,
            PanelFocus::Diff => PanelFocus::FileList,
            PanelFocus::Comments => PanelFocus::Diff,
        }
    }

    /// The panel that follows `self` in the cycle, wrapping around.
    pub fn next(self) -> (r: Self)
        ensures
            r == self.spec_next(),
            r.position() == (self.position() + 1) % 3,
    {
        match self {
            PanelFocus::FileList => PanelFocus::Diff,
            PanelFocus::Diff => PanelFocus::Comments,
            PanelFocus::Comments => PanelFocus::FileList,
        }
    }
}

/// The selection of a list: which item is selected, and which item is the
/// first one shown.
///
/// The index may lie past the end of the list; whoever draws the list
/// brings it back to the last item.
#[derive(Debug, Clone, Copy, PartialEq, Eq)]
pub struct ListSelection {
    pub selected: Option<usize>,
    pub offset: usize,
}

impl ListSelection {
    /// The selection moved down by `amount` items, counted from the first
    /// item if nothing was selected.
    pub open spec fn moved_down(self, amount: u16) -> ListSelection {
        let from: int = match self.selected {
            Some(i) => i as int,
            None => 0,
        };
        ListSelection {
            selected: Some(
                if from + amount > usize::MAX {
                    usize::MAX
                } else {
                    (from + amount) as usize
                },
            ),
            offset: self.offset,
        }
    }

    /// The selection moved up by `amount` items, stopping at the first.
    pub open spec fn moved_up(self, amount: u16) -> ListSelection {
        let from: int = match self.selected {
            Some(i) => i as int,
            None => 0,
        };
        ListSelection {
            selected: Some(
                if from - amount < 0 {
                    0usize
                } else {
                    (from - amount) as usize
                },
            ),
            offset: self.offset,
        }
    }

    /// Nothing selected, shown from the top.
    pub fn new() -> (r: ListSelection)
        ensures
            r == (ListSelection { selected: None, offset: 0 }),
    {
        ListSelection { selected: None, offset: 0 }
    }

    /// Moves the selection down by `amount` items.
    pub fn scroll_down_by(&mut self, amount: u16)
        ensures
            *final(self) == old(self).moved_down(amount),
    {
        let from: usize = match self.selected {
            Some(i) => i,
            None => 0,
        };
        self.selected = Some(from.saturating_add(amount as usize));
    }

    /// Moves the selection up by `amount` items.
    pub fn scroll_up_by(&mut self, amount: u16)
        ensures
            *final(self) == old(self).moved_up(amount),
    {
        let from: usize = match self.selected {
            Some(i) => i,
            None => 0,
        };
        self.selected = Some(from.saturating_sub(amount as usize));
    }

    /// Selects the first item.
    pub fn select_first(&mut self)
        ensures
            *final(self) == (ListSelection { selected: Some(0), offset: old(self).offset }),
    {
        self.selected = Some(0);
    }

    /// Selects the last item: the index is set past any list, to be brought
    /// back when the list is drawn.
    pub fn select_last(&mut self)
        ensures
            *final(self) == (ListSelection { selected: Some(usize::MAX), offset: old(self).offset }),
    {
        self.selected = Some(usize::MAX);
    }
}

/// The place of a panel on screen, in cells.
#[derive(Debug, Clone, Copy, PartialEq, Eq, Structural)]
pub struct PanelRect {
    pub x: u16,
    pub y: u16,
    pub width: u16,
    pub height: u16,
}

impl PanelRect {
    /// Whether the cell at `column` and `row` lies in the panel. The right
    /// and the lower edge stop at the largest coordinate there is.
    pub open spec fn holds(self, column: u16, row: u16) -> bool {
        &&& self.x <= column
        &&& column < capped_sum(self.x as int, self.width as int, u16::MAX as int)
        &&& self.y <= row
        &&& row < capped_sum(self.y as int, self.height as int, u16::MAX as int)
    }

    /// Whether the cell at `column` and `row` lies in the panel.
    pub fn contains(&self, column: u16, row: u16) -> (r: bool)
        ensures
            r == self.holds(column, row),
    {
        column >= self.x && column < self.x.saturating_add(self.width) && row >= self.y && row
            < self.y.saturating_add(self.height)
    }
}

/// All state of the user interface.
pub struct AppState {
    /// Current editor mode.
    pub mode: Mode,
    /// Which panel receives scroll and navigation keys.
    pub focus: PanelFocus,
    /// Selection of the file list.
    pub file_list_state: ListSelection,
    /// First shown line of the diff panel.
    pub diff_scroll: usize,
    /// First shown row of the comments panel.
    pub comments_scroll: u16,
    /// First shown row of the help overlay.
    pub help_scroll: u16,
    /// Inner height of the diff panel at the last draw.
    pub diff_viewport_height: u16,
    /// Inner height of the comments panel at the last draw.
    pub comments_viewport_height: u16,
    /// Inner height of the file list at the last draw.
    pub file_list_viewport_height: u16,
    /// Share of the width given to the file list, in percent.
    pub left_pct: u16,
    /// Share of the width given to the diff panel, in percent.
    pub center_pct: u16,
    /// Share of the width given to the comments panel, in percent.
    pub right_pct: u16,
    /// Whether a comment was typed and not saved.
    pub has_unsaved_comments: bool,
    /// The render-ready lines of the current diff.
    pub diff_lines: Vec<StyledLine>,
    /// The file summaries of the current diff.
    pub file_summaries: Vec<FileSummary>,
    /// The mode of the diff on display.
    pub diff_mode: DiffMode,
    /// Whether a diff was requested and has not arrived.
    pub diff_loading: bool,
    /// Index in `diff_lines` of each hunk header.
    pub hunk_offsets: Vec<usize>,
    /// Index of the file that was last jumped to.
    pub selected_file_index: usize,
    /// Index in `hunk_offsets` of the hunk last jumped to.
    pub hunk_cursor: usize,
    /// Where the file list, the diff panel and the comments panel were at
    /// the last draw.
    pub panel_rects: [PanelRect; 3],
    /// The request that the last switch of the diff mode asks for, until
    /// the caller takes it to send it to the worker.
    pub pending_request: Option<GitRequest>,
}

impl Default for AppState {
    /// The state at start: normal mode, focus on the file list, panels at
    /// 20, 55 and 25 percent, nothing loaded and nothing scrolled.
    fn default() -> (r: AppState)
        ensures
            r.mode == Mode::Normal,
            r.focus == PanelFocus::FileList,
            r.file_list_state == (ListSelection { selected: None, offset: 0 }),
            r.diff_scroll == 0 && r.comments_scroll == 0 && r.help_scroll == 0,
            r.diff_viewport_height == 0 && r.comments_viewport_height == 0
                && r.file_list_viewport_height == 0,
            r.left_pct == 20 && r.center_pct == 55 && r.right_pct == 25,
            !r.has_unsaved_comments && !r.diff_loading,
            r.diff_lines@.len() == 0 && r.file_summaries@.len() == 0 && r.hunk_offsets@.len() == 0,
            r.diff_mode == DiffMode::Unstaged,
            r.selected_file_index == 0 && r.hunk_cursor == 0,
            forall|i: int|
                0 <= i < 3 ==> r.panel_rects@[i] == (PanelRect { x: 0, y: 0, width: 0, height: 0 }),
            r.pending_request is None,
    {
        let nowhere = PanelRect { x: 0, y: 0, width: 0, height: 0 };
        AppState {
            mode: Mode::Normal,
            focus: PanelFocus::FileList,
            file_list_state: ListSelection::new(),
            diff_scroll: 0,
            comments_scroll: 0,
            help_scroll: 0,
            diff_viewport_height: 0,
            comments_viewport_height: 0,
            file_list_viewport_height: 0,
            left_pct: 20,
            center_pct: 55,
            right_pct: 25,
            has_unsaved_comments: false,
            diff_lines: Vec::new(),
            file_summaries: Vec::new(),
            diff_mode: DiffMode::Unstaged,
            diff_loading: false,
            hunk_offsets: Vec::new(),
            selected_file_index: 0,
            hunk_cursor: 0,
            panel_rects: [nowhere, nowhere, nowhere],
            pending_request: None,
        }
    }
}

/// `a + b`, or the largest value of its type if that is smaller.
pub open spec fn capped_sum(a: int, b: int, max: int) -> int {
    if a + b > max {
        max
    } else {
        a + b
    }
}

/// `a - b`, or zero if that is larger.
pub open spec fn floored_difference(a: int, b: int) -> int {
    if a - b < 0 {
        0
    } else {
        a - b
    }
}

/// The smaller of two numbers.
pub open spec fn smaller(a: int, b: int) -> int {
    if a <= b {
        a
    } else {
        b
    }
}

/// The smallest share the diff panel shrinks to, in percent.
pub const MIN_CENTER_PCT: u16 = 20;

/// The largest share the diff panel grows to, in percent.
pub const MAX_CENTER_PCT: u16 = 80;

/// The smallest share a side panel is left with when the diff panel grows.
pub const MIN_SIDE_PCT: u16 = 5;

/// By how much the diff panel shrinks or grows at a time, in percent.
pub const RESIZE_STEP_PCT: u16 = 5;

impl AppState {
    /// The state with the focused panel scrolled down by `lines`.
    pub open spec fn scrolled_down(self, lines: u16) -> AppState {
        match self.focus {
            PanelFocus::FileList => AppState {
                file_list_state: self.file_list_state.moved_down(lines),
                ..self
            },
            PanelFocus::Diff => AppState {
                diff_scroll: capped_sum(self.diff_scroll as int, lines as int, usize::MAX as int) as usize,
                ..self
            },
            PanelFocus::Comments => AppState {
                comments_scroll: capped_sum(
                    self.comments_scroll as int,
                    lines as int,
                    u16::MAX as int,
                ) as u16,
                ..self
            },
        }
    }

    /// The state with the focused panel scrolled up by `lines`.
    pub open spec fn scrolled_up(self, lines: u16) -> AppState {
        match self.focus {
            PanelFocus::FileList => AppState {
                file_list_state: self.file_list_state.moved_up(lines),
                ..self
            },
            PanelFocus::Diff => AppState {
                diff_scroll: floored_difference(self.diff_scroll as int, lines as int) as usize,
                ..self
            },
            PanelFocus::Comments => AppState {
                comments_scroll: floored_difference(self.comments_scroll as int, lines as int) as u16,
                ..self
            },
        }
    }

    /// The height of the focused panel at the last draw.
    pub open spec fn focused_height(self) -> u16 {
        match self.focus {
            PanelFocus::FileList => self.file_list_viewport_height,
            PanelFocus::Diff => self.diff_viewport_height,
            PanelFocus::Comments => self.comments_viewport_height,
        }
    }

    /// How far half a page scrolls: half the focused panel's height, and at
    /// least one line.
    pub open spec fn half_page(self) -> u16 {
        if self.focused_height() / 2 < 1 {
            1
        } else {
            self.focused_height() / 2
        }
    }

    /// How far a full page scrolls: the focused panel's height, and at least
    /// one line.
    pub open spec fn full_page(self) -> u16 {
        if self.focused_height() < 1 {
            1
        } else {
            self.focused_height()
        }
    }

    /// Scrolls the focused panel down by `lines`: the file list moves its
    /// selection, the other panels their first shown line, stopping at the
    /// largest value there is.
    pub fn scroll_down(&mut self, lines: u16)
        ensures
            *final(self) == old(self).scrolled_down(lines),
    {
        match self.focus {
            PanelFocus::FileList => {
                self.file_list_state.scroll_down_by(lines);
            },
            PanelFocus::Diff => {
                self.diff_scroll = self.diff_scroll.saturating_add(lines as usize);
            },
            PanelFocus::Comments => {
                self.comments_scroll = self.comments_scroll.saturating_add(lines);
            },
        }
    }

    /// Scrolls the focused panel up by `lines`, stopping at the top.
    pub fn scroll_up(&mut self, lines: u16)
        ensures
            *final(self) == old(self).scrolled_up(lines),
    {
        match self.focus {
            PanelFocus::FileList => {
                self.file_list_state.scroll_up_by(lines);
            },
            PanelFocus::Diff => {
                self.diff_scroll = self.diff_scroll.saturating_sub(lines as usize);
            },
            PanelFocus::Comments => {
                self.comments_scroll = self.comments_scroll.saturating_sub(lines);
            },
        }
    }

    /// The state with the focused panel at its top.
    pub open spec fn at_top(self) -> AppState {
        match self.focus {
            PanelFocus::FileList => AppState {
                file_list_state: ListSelection {
                    selected: Some(0),
                    offset: self.file_list_state.offset,
                },
                ..self
            },
            PanelFocus::Diff => AppState { diff_scroll: 0, ..self },
            PanelFocus::Comments => AppState { comments_scroll: 0, ..self },
        }
    }

    /// The state with the focused panel at its bottom.
    pub open spec fn at_bottom(self) -> AppState {
        match self.focus {
            PanelFocus::FileList => AppState {
                file_list_state: ListSelection {
                    selected: Some(usize::MAX),
                    offset: self.file_list_state.offset,
                },
                ..self
            },
            PanelFocus::Diff => AppState {
                diff_scroll: floored_difference(self.diff_lines@.len() as int, 1) as usize,
                ..self
            },
            PanelFocus::Comments => AppState { comments_scroll: u16::MAX, ..self },
        }
    }

    /// Scrolls the focused panel to its top.
    pub fn scroll_top(&mut self)
        ensures
            *final(self) == old(self).at_top(),
    {
        match self.focus {
            PanelFocus::FileList => {
                self.file_list_state.select_first();
            },
            PanelFocus::Diff => {
                self.diff_scroll = 0;
            },
            PanelFocus::Comments => {
                self.comments_scroll = 0;
            },
        }
    }

    /// Scrolls the focused panel to its bottom: the file list selects its
    /// last item, the diff panel shows its last line first, and the comments
    /// panel is set past any content.
    pub fn scroll_bottom(&mut self)
        ensures
            *final(self) == old(self).at_bottom(),
    {
        match self.focus {
            PanelFocus::FileList => {
                self.file_list_state.select_last();
            },
            PanelFocus::Diff => {
                self.diff_scroll = self.diff_lines.len().saturating_sub(1);
            },
            PanelFocus::Comments => {
                self.comments_scroll = u16::MAX;
            },
        }
    }

    /// The height of the focused panel at the last draw.
    fn viewport_height(&self) -> (r: u16)
        ensures
            r == self.focused_height(),
    {
        match self.focus {
            PanelFocus::FileList => self.file_list_viewport_height,
            PanelFocus::Diff => self.diff_viewport_height,
            PanelFocus::Comments => self.comments_viewport_height,
        }
    }

    /// Scrolls the focused panel down by half its height, and by one line
    /// at least.
    pub fn half_page_down(&mut self)
        ensures
            *final(self) == old(self).scrolled_down(old(self).half_page()),
    {
        let half: u16 = self.viewport_height() / 2;
        self.scroll_down(if half < 1 { 1 } else { half });
    }

    /// Scrolls the focused panel up by half its height, and by one line at
    /// least.
    pub fn half_page_up(&mut self)
        ensures
            *final(self) == old(self).scrolled_up(old(self).half_page()),
    {
        let half: u16 = self.viewport_height() / 2;
        self.scroll_up(if half < 1 { 1 } else { half });
    }

    /// Scrolls the focused panel down by its height, and by one line at
    /// least.
    pub fn full_page_down(&mut self)
        ensures
            *final(self) == old(self).scrolled_down(old(self).full_page()),
    {
        let full: u16 = self.viewport_height();
        self.scroll_down(if full < 1 { 1 } else { full });
    }

    /// Scrolls the focused panel up by its height, and by one line at least.
    pub fn full_page_up(&mut self)
        ensures
            *final(self) == old(self).scrolled_up(old(self).full_page()),
    {
        let full: u16 = self.viewport_height();
        self.scroll_up(if full < 1 { 1 } else { full });
    }

    /// The state with the file selection moved up by one.
    pub open spec fn at_prev_file(self) -> AppState {
        AppState { file_list_state: self.file_list_state.moved_up(1), ..self }
    }

    /// The state with the file selection moved down by one.
    pub open spec fn at_next_file(self) -> AppState {
        AppState { file_list_state: self.file_list_state.moved_down(1), ..self }
    }

    /// Moves the file selection up by one, whichever panel has the focus.
    pub fn prev_file(&mut self)
        ensures
            *final(self) == old(self).at_prev_file(),
    {
        self.file_list_state.scroll_up_by(1);
    }

    /// Moves the file selection down by one, whichever panel has the focus.
    pub fn next_file(&mut self)
        ensures
            *final(self) == old(self).at_next_file(),
    {
        self.file_list_state.scroll_down_by(1);
    }

    /// The state after a jump to the hunk at `cursor`.
    pub open spec fn at_hunk(self, cursor: int) -> AppState {
        AppState {
            hunk_cursor: cursor as usize,
            diff_scroll: self.hunk_offsets@[cursor],
            ..self
        }
    }

    /// The state after a jump to the previous hunk.
    pub open spec fn at_prev_hunk(self) -> AppState {
        if self.hunk_offsets@.len() == 0 {
            self
        } else {
            self.at_hunk(
                smaller(
                    floored_difference(self.hunk_cursor as int, 1),
                    self.hunk_offsets@.len() - 1,
                ),
            )
        }
    }

    /// The state after a jump to the next hunk.
    pub open spec fn at_next_hunk(self) -> AppState {
        if self.hunk_offsets@.len() == 0 {
            self
        } else {
            self.at_hunk(smaller(self.hunk_cursor + 1, self.hunk_offsets@.len() - 1))
        }
    }

    /// Jumps to the header of the previous hunk; at the first hunk it stays
    /// there. A cursor that lies past the last hunk lands on the last hunk
    /// at the furthest. Without hunks nothing changes.
    pub fn prev_hunk(&mut self)
        ensures
            *final(self) == old(self).at_prev_hunk(),
    {
        let count: usize = self.hunk_offsets.len();
        if count == 0 {
            return ;
        }
        let back: usize = self.hunk_cursor.saturating_sub(1);
        self.hunk_cursor = if back < count - 1 { back } else { count - 1 };
        self.diff_scroll = self.hunk_offsets[self.hunk_cursor];
    }

    /// Jumps to the header of the next hunk; at the last hunk it stays
    /// there. Without hunks nothing changes.
    pub fn next_hunk(&mut self)
        ensures
            *final(self) == old(self).at_next_hunk(),
    {
        let count: usize = self.hunk_offsets.len();
        if count == 0 {
            return ;
        }
        let forth: usize = self.hunk_cursor.saturating_add(1);
        self.hunk_cursor = if forth < count - 1 { forth } else { count - 1 };
        self.diff_scroll = self.hunk_offsets[self.hunk_cursor];
    }

    /// The state after a result of the diff worker was taken in.
    pub open spec fn with_result(self, payload: GitResultPayload) -> AppState {
        AppState {
            diff_mode: payload.mode,
            file_summaries: payload.files,
            diff_lines: payload.highlighted_lines,
            hunk_offsets: payload.hunk_offsets,
            diff_loading: false,
            diff_scroll: if self.diff_mode != payload.mode {
                0
            } else {
                self.diff_scroll
            },
            hunk_cursor: if self.diff_mode != payload.mode {
                0
            } else {
                self.hunk_cursor
            },
            ..self
        }
    }

    /// Takes in a result of the diff worker.
    ///
    /// The file list, the lines and the hunk offsets are replaced wholesale
    /// and the state is tagged with the mode that the payload carries. The
    /// scroll position and the hunk cursor go back to the top only if that
    /// mode differs from the mode displayed before.
    pub fn apply_git_result(&mut self, payload: GitResultPayload)
        ensures
            *final(self) == old(self).with_result(payload),
    {
        let mode_changed = self.diff_mode != payload.mode;
        self.diff_mode = payload.mode;
        self.file_summaries = payload.files;
        self.diff_lines = payload.highlighted_lines;
        self.hunk_offsets = payload.hunk_offsets;
        self.diff_loading = false;
        if mode_changed {
            self.diff_scroll = 0;
            self.hunk_cursor = 0;
        }
    }

    /// The state after a jump to the selected file.
    pub open spec fn at_selected_file(self) -> AppState {
        match self.file_list_state.selected {
            Some(index) => AppState {
                selected_file_index: index,
                diff_scroll: 0,
                hunk_cursor: 0,
                focus: PanelFocus::Diff,
                ..self
            },
            None => self,
        }
    }

    /// Jumps the diff view to the file selected in the file list: the file
    /// is remembered, the diff goes back to the top and takes the focus.
    /// With nothing selected nothing changes.
    pub fn jump_to_selected_file(&mut self)
        ensures
            *final(self) == old(self).at_selected_file(),
    {
        if let Some(index) = self.file_list_state.selected {
            self.selected_file_index = index;
            self.diff_scroll = 0;
            self.hunk_cursor = 0;
            self.focus = PanelFocus::Diff;
        }
    }

    /// How much the diff panel gives up when it shrinks: a step, but no more
    /// than what it has above its smallest share.
    pub open spec fn shrink_amount(self) -> int {
        if self.center_pct <= MIN_CENTER_PCT {
            0
        } else {
            smaller(RESIZE_STEP_PCT as int, self.center_pct - MIN_CENTER_PCT)
        }
    }

    /// The state with the diff panel shrunk by a step.
    pub open spec fn shrunk(self) -> AppState {
        AppState {
            center_pct: (self.center_pct - self.shrink_amount()) as u16,
            left_pct: capped_sum(self.left_pct as int, self.shrink_amount() / 2, u16::MAX as int) as u16,
            right_pct: capped_sum(
                self.right_pct as int,
                self.shrink_amount() - self.shrink_amount() / 2,
                u16::MAX as int,
            ) as u16,
            ..self
        }
    }

    /// Shrinks the diff panel by a step, down to its smallest share at most.
    /// Half of what it gives up, rounded down, goes to the file list and the
    /// rest to the comments panel.
    pub fn shrink_diff_panel(&mut self)
        ensures
            *final(self) == old(self).shrunk(),
    {
        if self.center_pct <= MIN_CENTER_PCT {
            return ;
        }
        let room: u16 = self.center_pct - MIN_CENTER_PCT;
        let transfer: u16 = if RESIZE_STEP_PCT < room { RESIZE_STEP_PCT } else { room };
        self.center_pct = self.center_pct - transfer;
        let left_gain: u16 = transfer / 2;
        let right_gain: u16 = transfer - left_gain;
        self.left_pct = self.left_pct.saturating_add(left_gain);
        self.right_pct = self.right_pct.saturating_add(right_gain);
    }

    /// How much the diff panel asks of its neighbours when it grows: a step,
    /// but no more than what it lacks to its largest share.
    pub open spec fn grow_amount(self) -> int {
        if self.center_pct >= MAX_CENTER_PCT {
            0
        } else {
            smaller(RESIZE_STEP_PCT as int, MAX_CENTER_PCT - self.center_pct)
        }
    }

    /// What the file list gives when the diff panel grows: half of what is
    /// asked, rounded down, but no more than it has above the smallest share
    /// of a side panel.
    pub open spec fn left_gives(self) -> int {
        smaller(self.grow_amount() / 2, floored_difference(self.left_pct as int, MIN_SIDE_PCT as int))
    }

    /// What the comments panel gives when the diff panel grows: the other
    /// half of what is asked, but no more than it has above the smallest
    /// share of a side panel.
    pub open spec fn right_gives(self) -> int {
        smaller(
            self.grow_amount() - self.grow_amount() / 2,
            floored_difference(self.right_pct as int, MIN_SIDE_PCT as int),
        )
    }

    /// The state with the diff panel grown by a step.
    pub open spec fn grown(self) -> AppState {
        AppState {
            left_pct: (self.left_pct - self.left_gives()) as u16,
            right_pct: (self.right_pct - self.right_gives()) as u16,
            center_pct: (self.center_pct + self.left_gives() + self.right_gives()) as u16,
            ..self
        }
    }

    /// Grows the diff panel by a step, up to its largest share at most, at
    /// the cost of its neighbours. It gains exactly what they give, so the
    /// three shares add up to what they added up to before.
    pub fn grow_diff_panel(&mut self)
        ensures
            *final(self) == old(self).grown(),
            final(self).left_pct + final(self).center_pct + final(self).right_pct
                == old(self).left_pct + old(self).center_pct + old(self).right_pct,
    {
        if self.center_pct >= MAX_CENTER_PCT {
            return ;
        }
        let room: u16 = MAX_CENTER_PCT - self.center_pct;
        let transfer: u16 = if RESIZE_STEP_PCT < room { RESIZE_STEP_PCT } else { room };
        let left_spare: u16 = self.left_pct.saturating_sub(MIN_SIDE_PCT);
        let right_spare: u16 = self.right_pct.saturating_sub(MIN_SIDE_PCT);
        let left_give: u16 = if transfer / 2 < left_spare { transfer / 2 } else { left_spare };
        let right_give: u16 = if transfer - transfer / 2 < right_spare {
            transfer - transfer / 2
        } else {
            right_spare
        };
        self.left_pct = self.left_pct - left_give;
        self.right_pct = self.right_pct - right_give;
        self.center_pct = self.center_pct + (left_give + right_give);
    }

    /// Where the lines of the diff panel start and end that a view of the
    /// given height shows: it starts at the scroll position, or at the last
    /// line if that lies before it, and ends where the view or the diff
    /// ends.
    pub open spec fn shown_range(self, height: u16) -> (int, int) {
        let total = self.diff_lines@.len() as int;
        let start = smaller(self.diff_scroll as int, floored_difference(total, 1));
        (start, smaller(start + height, total))
    }

    /// The range of lines of the diff panel that a view of the given height
    /// shows: the index of the first one, and the index after the last one.
    pub fn visible_range(&self, height: u16) -> (r: (usize, usize))
        ensures
            (r.0 as int, r.1 as int) == self.shown_range(height),
            r.0 <= r.1 <= self.diff_lines@.len(),
    {
        let total: usize = self.diff_lines.len();
        let last: usize = total.saturating_sub(1);
        let start: usize = if self.diff_scroll < last { self.diff_scroll } else { last };
        let reach: usize = start.saturating_add(height as usize);
        (start, if reach < total { reach } else { total })
    }

    /// Takes the request that is due, if any, so that it can be sent.
    pub fn take_request(&mut self) -> (r: Option<GitRequest>)
        ensures
            r == old(self).pending_request,
            *final(self) == (AppState { pending_request: None, ..*old(self) }),
    {
        self.pending_request.take()
    }
}

} // verus!
