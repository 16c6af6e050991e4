//! Single-pass extraction: from the events of one diff traversal to the hunk
//! list, the per-file summaries and the index of each file's first hunk.
//!
//! A traversal reports a file, then each of its hunks, and after each hunk
//! its lines. The extractor folds these events, in the order they come, into
//! one accumulator; nothing is traversed twice. Where the traversal was cut
//! short, the hunk that was open is left out, so that every hunk it yields
//! is whole.

use vstd::prelude::*;
use vstd::string::*;
use crate::git::types::{
    DiffLineView, FileSummary, FileSummaryView, HunkView, OwnedDiffHunk, OwnedDiffLine,
    files_view, hunks_view,
};

verus! {

/// What kind of change a file underwent.
#[derive(Debug, Clone, Copy, PartialEq, Eq, Structural)]
pub enum DeltaKind {
    Unmodified,
    Added,
    Deleted,
    Modified,
    Renamed,
    Copied,
    Ignored,
    Untracked,
    Typechange,
    Unreadable,
    Conflicted,
}

/// One step of a diff traversal.
#[derive(Debug, Clone, PartialEq, Eq)]
pub enum DiffEvent {
    /// A changed file begins. `path` is its path in the new tree, where the
    /// traversal could name one.
    File { path: Option<String>, status: DeltaKind },
    /// A hunk of the current file begins.
    Hunk { header: String, old_start: u32, new_start: u32 },
    /// A line of the current hunk.
    Line { origin: char, content: String, old_lineno: Option<u32>, new_lineno: Option<u32> },
}

/// Mathematical value of a [`DiffEvent`].
pub enum DiffEventView {
    File { path: Option<Seq<char>>, status: DeltaKind },
    Hunk { header: Seq<char>, old_start: u32, new_start: u32 },
    Line { origin: char, content: Seq<char>, old_lineno: Option<u32>, new_lineno: Option<u32> },
}

impl View for DiffEvent {
    type V = DiffEventView;

    open spec fn view(&self) -> DiffEventView {
        match *self {
            DiffEvent::File { path, status } => DiffEventView::File {
                path: path_view(path),
                status,
            },
            DiffEvent::Hunk { header, old_start, new_start } => DiffEventView::Hunk {
                header: header@,
                old_start,
                new_start,
            },
            DiffEvent::Line { origin, content, old_lineno, new_lineno } => DiffEventView::Line {
                origin,
                content: content@,
                old_lineno,
                new_lineno,
            },
        }
    }
}

/// The value of an optional path.
pub open spec fn path_view(path: Option<String>) -> Option<Seq<char>> {
    match path {
        Some(p) => Some(p@),
        None => None,
    }
}

/// The values of a sequence of events, in order.
pub open spec fn events_view(events: Seq<DiffEvent>) -> Seq<DiffEventView> {
    Seq::new(events.len(), |i: int| events[i]@)
}

/// The status letter shown for a kind of change: `'A'` for an added file,
/// `'D'` for a deleted one, `'R'` for a renamed one and `'M'` for all others.
pub open spec fn status_letter(kind: DeltaKind) -> char {
    match kind {
        DeltaKind::Added => 'A',
        DeltaKind::Deleted => 'D',
        DeltaKind::Renamed => 'R',
        _ => 'M',
    }
}

/// The path shown for a file that the traversal could not name.
pub open spec fn unknown_path() -> Seq<char> {
    seq!['u', 'n', 'k', 'n', 'o', 'w', 'n']
}

/// What an extraction has accumulated.
pub struct ExtractionView {
    /// The hunks, in the order they were reported.
    pub hunks: Seq<HunkView>,
    /// For each file, how many hunks had been reported when it began.
    pub file_hunk_starts: Seq<nat>,
    /// The file summaries, in the order the files were reported.
    pub files: Seq<FileSummaryView>,
}

/// The accumulator before any event.
pub open spec fn empty_extraction() -> ExtractionView {
    ExtractionView { hunks: Seq::empty(), file_hunk_starts: Seq::empty(), files: Seq::empty() }
}

/// `hunks` with `line` appended to its last hunk; unchanged if there is none.
pub open spec fn with_line(hunks: Seq<HunkView>, line: DiffLineView) -> Seq<HunkView> {
    if hunks.len() == 0 {
        hunks
    } else {
        let last = hunks.last();
        hunks.update(hunks.len() - 1, HunkView { lines: last.lines.push(line), ..last })
    }
}

/// `files` with a line of the given origin counted for its last file;
/// unchanged if there is none, or if the line is neither added nor removed.
pub open spec fn with_count(files: Seq<FileSummaryView>, origin: char) -> Seq<FileSummaryView> {
    if files.len() == 0 {
        files
    } else {
        let last = files.last();
        if origin == '+' {
            files.update(files.len() - 1, FileSummaryView { added: last.added + 1, ..last })
        } else if origin == '-' {
            files.update(files.len() - 1, FileSummaryView { removed: last.removed + 1, ..last })
        } else {
            files
        }
    }
}

/// The accumulator after one more event.
pub open spec fn extraction_step(acc: ExtractionView, event: DiffEventView) -> ExtractionView {
    match event {
        DiffEventView::File { path, status } => ExtractionView {
            hunks: acc.hunks,
            file_hunk_starts: acc.file_hunk_starts.push(acc.hunks.len()),
            files: acc.files.push(
                FileSummaryView {
                    path: match path {
                        Some(p) => p,
                        None => unknown_path(),
                    },
                    status: status_letter(status),
                    added: 0,
                    removed: 0,
                },
            ),
        },
        DiffEventView::Hunk { header, old_start, new_start } => ExtractionView {
            hunks: acc.hunks.push(HunkView { header, old_start, new_start, lines: Seq::empty() }),
            ..acc
        },
        DiffEventView::Line { origin, content, old_lineno, new_lineno } => ExtractionView {
            hunks: with_line(acc.hunks, DiffLineView { origin, content, old_lineno, new_lineno }),
            file_hunk_starts: acc.file_hunk_starts,
            files: with_count(acc.files, origin),
        },
    }
}

/// What a whole traversal yields: the events folded in order, starting from
/// the empty accumulator.
pub open spec fn extraction_of(events: Seq<DiffEventView>) -> ExtractionView
    decreases events.len(),
{
    if events.len() == 0 {
        empty_extraction()
    } else {
        extraction_step(extraction_of(events.drop_last()), events.last())
    }
}

/// How many lines the last of `files` has counted; zero if there is none.
pub open spec fn last_counted(files: Seq<FileSummary>) -> int {
    if files.len() == 0 {
        0
    } else {
        files.last().added + files.last().removed
    }
}

/// The result of an extraction.
#[derive(Debug, Clone, PartialEq, Eq)]
pub struct Extraction {
    /// The hunks, in file order and then in-file order.
    pub hunks: Vec<OwnedDiffHunk>,
    /// For each file, the index in `hunks` at which its first hunk stands.
    pub file_hunk_starts: Vec<usize>,
    /// One summary per file, in diff order.
    pub files: Vec<FileSummary>,
}

/// The index list of an extraction as mathematical integers.
pub open spec fn starts_view(starts: Seq<usize>) -> Seq<nat> {
    Seq::new(starts.len(), |i: int| starts[i] as nat)
}

impl View for Extraction {
    type V = ExtractionView;

    open spec fn view(&self) -> ExtractionView {
        ExtractionView {
            hunks: hunks_view(self.hunks@),
            file_hunk_starts: starts_view(self.file_hunk_starts@),
            files: files_view(self.files@),
        }
    }
}

impl Extraction {
    /// An extraction that has seen no event.
    pub fn new() -> (r: Extraction)
        ensures
            r@ == empty_extraction(),
            r.hunks@.len() == 0,
            r.file_hunk_starts@.len() == 0,
            r.files@.len() == 0,
    {
        let r = Extraction { hunks: Vec::new(), file_hunk_starts: Vec::new(), files: Vec::new() };
        assert(r@.hunks =~= Seq::empty());
        assert(r@.file_hunk_starts =~= Seq::empty());
        assert(r@.files =~= Seq::empty());
        r
    }

    /// Records that a file begins.
    fn begin_file(&mut self, path: Option<String>, status: DeltaKind)
        ensures
            final(self)@ == extraction_step(
                old(self)@,
                (DiffEventView::File { path: path_view(path), status }),
            ),
            last_counted(final(self).files@) == 0,
    {
        let ghost after = extraction_step(
            old(self)@,
            DiffEventView::File { path: path_view(path), status },
        );
        let shown: String = match path {
            Some(p) => p,
            None => {
                proof {
                    reveal_strlit("unknown");
                }
                let s = String::from_str("unknown");
                assert(s@ =~= unknown_path());
                s
            },
        };
        let letter: char = match status {
            DeltaKind::Added => 'A',
            DeltaKind::Deleted => 'D',
            DeltaKind::Renamed => 'R',
            _ => 'M',
        };
        self.file_hunk_starts.push(self.hunks.len());
        self.files.push(FileSummary { path: shown, status: letter, added: 0, removed: 0 });
        proof {
            assert(self@.file_hunk_starts =~= after.file_hunk_starts);
            assert(self@.files =~= after.files);
        }
    }

    /// Records that a hunk begins.
    fn begin_hunk(&mut self, header: String, old_start: u32, new_start: u32)
        ensures
            final(self)@ == extraction_step(
                old(self)@,
                (DiffEventView::Hunk { header: header@, old_start, new_start }),
            ),
            final(self).files@ == old(self).files@,
    {
        let ghost after = extraction_step(
            old(self)@,
            DiffEventView::Hunk { header: header@, old_start, new_start },
        );
        self.hunks.push(OwnedDiffHunk { header, old_start, new_start, lines: Vec::new() });
        proof {
            assert(self.hunks@.last()@.lines =~= Seq::empty());
            assert(self@.hunks =~= after.hunks);
        }
    }

    /// Records a line: it joins the last hunk, and counts for the last file.
    fn add_line(
        &mut self,
        origin: char,
        content: String,
        old_lineno: Option<u32>,
        new_lineno: Option<u32>,
    )
        requires
            last_counted(old(self).files@) < usize::MAX,
        ensures
            final(self)@ == extraction_step(
                old(self)@,
                (DiffEventView::Line { origin, content: content@, old_lineno, new_lineno }),
            ),
            last_counted(final(self).files@) <= last_counted(old(self).files@) + 1,
    {
        let ghost line = DiffLineView { origin, content: content@, old_lineno, new_lineno };
        let ghost after = extraction_step(
            old(self)@,
            DiffEventView::Line { origin, content: content@, old_lineno, new_lineno },
        );
        let hunk_count: usize = self.hunks.len();
        if hunk_count > 0 {
            self.hunks[hunk_count - 1].lines.push(
                OwnedDiffLine { origin, content, old_lineno, new_lineno },
            );
        }
        let file_count: usize = self.files.len();
        if file_count > 0 {
            if origin == '+' {
                self.files[file_count - 1].added = self.files[file_count - 1].added + 1;
            } else if origin == '-' {
                self.files[file_count - 1].removed = self.files[file_count - 1].removed + 1;
            }
        }
        proof {
            if hunk_count > 0 {
                assert(self.hunks@.last()@.lines =~= old(self).hunks@.last()@.lines.push(line));
            }
            assert(self@.hunks =~= after.hunks);
            assert(self@.files =~= after.files);
        }
    }
}

/// What a traversal reported, and whether it ran to its end.
#[derive(Debug, Clone, PartialEq, Eq)]
pub struct Traversal {
    /// The events, in the order they were reported.
    pub events: Vec<DiffEvent>,
    /// Whether the traversal ended by itself. It is `false` where an error
    /// cut it short.
    pub complete: bool,
}

/// Index of the last event that is not a line, or `-1` if there is none.
pub open spec fn last_boundary(events: Seq<DiffEventView>) -> int
    decreases events.len(),
{
    if events.len() == 0 {
        -1
    } else if events.last() is Line {
        last_boundary(events.drop_last())
    } else {
        events.len() - 1
    }
}

/// How many events of a traversal count. Of a complete one all do. Of one
/// that was cut short while a hunk was open, the events before that hunk
/// do: the hunk may lack lines, so it is left out with the lines it has.
/// A hunk is open from its own event until the next hunk or file begins.
pub open spec fn kept_count(events: Seq<DiffEventView>, complete: bool) -> int {
    let boundary = last_boundary(events);
    if !complete && boundary >= 0 && events[boundary] is Hunk {
        boundary
    } else {
        events.len() as int
    }
}

/// The events of a traversal that count.
pub open spec fn kept_events(events: Seq<DiffEventView>, complete: bool) -> Seq<DiffEventView> {
    events.take(kept_count(events, complete))
}

impl Traversal {
    /// The events of the traversal that count.
    pub open spec fn kept(self) -> Seq<DiffEventView> {
        kept_events(events_view(self.events@), self.complete)
    }
}

/// Where the last boundary lies, and that only lines follow it.
pub proof fn lemma_last_boundary_bounds(events: Seq<DiffEventView>)
    ensures
        -1 <= last_boundary(events) < events.len(),
        last_boundary(events) >= 0 ==> !(events[last_boundary(events)] is Line),
        forall|j: int| last_boundary(events) < j < events.len() ==> #[trigger] events[j] is Line,
    decreases events.len(),
{
    if events.len() > 0 && events.last() is Line {
        let fewer = events.drop_last();
        lemma_last_boundary_bounds(fewer);
        assert forall|j: int| last_boundary(events) < j < events.len() implies #[trigger] events[j] is Line by {
            if j < fewer.len() {
                assert(fewer[j] == events[j]);
            }
        }
    }
}

/// The last boundary is at `at` when the event there is not a line and only
/// lines follow it; it is `-1` when all events are lines.
pub proof fn lemma_last_boundary_is(events: Seq<DiffEventView>, at: int)
    requires
        -1 <= at < events.len(),
        forall|j: int| at < j < events.len() ==> #[trigger] events[j] is Line,
        at >= 0 ==> !(events[at] is Line),
    ensures
        last_boundary(events) == at,
    decreases events.len(),
{
    if events.len() > 0 && events.last() is Line {
        lemma_last_boundary_is(events.drop_last(), at);
    }
}

/// Lines that follow a hunk change nothing but that hunk and the counts of
/// the last file: with `upto` at the hunk's own event, the hunks before it,
/// the first-hunk indices and the number of files are what they are after
/// all events.
pub proof fn lemma_lines_touch_last_hunk_only(events: Seq<DiffEventView>, upto: int)
    requires
        0 <= upto < events.len(),
        events[upto] is Hunk,
        forall|j: int| upto < j < events.len() ==> #[trigger] events[j] is Line,
    ensures
        extraction_of(events).hunks.len() > 0,
        extraction_of(events.take(upto)).hunks == extraction_of(events).hunks.drop_last(),
        extraction_of(events.take(upto)).file_hunk_starts == extraction_of(events).file_hunk_starts,
        extraction_of(events.take(upto)).files.len() == extraction_of(events).files.len(),
    decreases events.len(),
{
    let fewer = events.drop_last();
    if upto == events.len() - 1 {
        assert(events.take(upto) =~= fewer);
        assert(extraction_of(events).hunks.drop_last() =~= extraction_of(fewer).hunks);
    } else {
        assert(events.last() is Line);
        assert forall|j: int| upto < j < fewer.len() implies #[trigger] fewer[j] is Line by {
            assert(fewer[j] == events[j]);
        }
        lemma_lines_touch_last_hunk_only(fewer, upto);
        assert(fewer.take(upto) =~= events.take(upto));
        assert(extraction_of(events).hunks.drop_last() =~= extraction_of(fewer).hunks.drop_last());
    }
}

/// A traversal that was cut short yields every hunk that was closed before
/// the cut, whole, and no other: what is left out is the one hunk that was
/// open, if there was one. The files and the first-hunk indices are those
/// of all events.
pub proof fn lemma_cut_leaves_out_the_open_hunk(events: Seq<DiffEventView>)
    ensures
        kept_events(events, true) == events,
        kept_count(events, false) == events.len() ==> kept_events(events, false) == events,
        kept_count(events, false) < events.len() ==> extraction_of(events).hunks.len() > 0,
        kept_count(events, false) < events.len() ==> extraction_of(
            kept_events(events, false),
        ).hunks == extraction_of(events).hunks.drop_last(),
        kept_count(events, false) < events.len() ==> extraction_of(
            kept_events(events, false),
        ).file_hunk_starts == extraction_of(events).file_hunk_starts,
        kept_count(events, false) < events.len() ==> extraction_of(
            kept_events(events, false),
        ).files.len() == extraction_of(events).files.len(),
{
    lemma_last_boundary_bounds(events);
    assert(events.take(events.len() as int) =~= events);
    if kept_count(events, false) < events.len() {
        lemma_lines_touch_last_hunk_only(events, last_boundary(events));
    }
}

/// Folds the events of one traversal into hunks, file summaries and the
/// index of each file's first hunk.
///
/// An empty traversal yields three empty lists. Of a traversal that was cut
/// short only the events before the hunk that was open count, so that a
/// hunk is present with all of its lines or not at all.
pub fn extract(traversal: Traversal) -> (r: Extraction)
    ensures
        r@ == extraction_of(traversal.kept()),
{
    let Traversal { events, complete } = traversal;
    let mut events = events;
    let ghost reported = events_view(events@);
    if !complete {
        let mut at: usize = events.len();
        while at > 0 && is_line(&events[at - 1])
            invariant
                at <= events.len(),
                reported == events_view(events@),
                forall|j: int| at <= j < events.len() ==> #[trigger] reported[j] is Line,
            decreases at,
        {
            at = at - 1;
        }
        proof {
            lemma_last_boundary_is(reported, at - 1);
        }
        if at > 0 && is_hunk(&events[at - 1]) {
            events.truncate(at - 1);
        }
    }
    proof {
        assert(events_view(events@) =~= kept_events(reported, complete));
    }
    let ghost all = events_view(events@);
    let count: usize = events.len();
    let mut acc = Extraction::new();
    for event in it: events
        invariant
            all == events_view(events@),
            it.seq() == events@,
            it.seq().len() == count,
            acc@ == extraction_of(all.take(it.index() as int)),
            last_counted(acc.files@) <= it.index(),
    {
        let ghost before = all.take(it.index() as int);
        let ghost now = all.take(it.index() + 1);
        proof {
            assert(now.drop_last() =~= before);
        }
        match event {
            DiffEvent::File { path, status } => {
                acc.begin_file(path, status);
            },
            DiffEvent::Hunk { header, old_start, new_start } => {
                acc.begin_hunk(header, old_start, new_start);
            },
            DiffEvent::Line { origin, content, old_lineno, new_lineno } => {
                acc.add_line(origin, content, old_lineno, new_lineno);
            },
        }
    }
    proof {
        assert(all.take(events@.len() as int) =~= all);
    }
    acc
}

/// Whether an event reports a line.
fn is_line(event: &DiffEvent) -> (r: bool)
    ensures
        r == (event@ is Line),
{
    match event {
        DiffEvent::Line { .. } => true,
        _ => false,
    }
}

/// Whether an event reports that a hunk begins.
fn is_hunk(event: &DiffEvent) -> (r: bool)
    ensures
        r == (event@ is Hunk),
{
    match event {
        DiffEvent::Hunk { .. } => true,
        _ => false,
    }
}

/// The shape of every extraction: one first-hunk index per file, none past
/// the end of the hunk list, and none smaller than the one before it.
pub open spec fn extraction_shaped(ex: ExtractionView) -> bool {
    &&& ex.file_hunk_starts.len() == ex.files.len()
    &&& forall|i: int|
        0 <= i < ex.file_hunk_starts.len() ==> #[trigger] ex.file_hunk_starts[i] <= ex.hunks.len()
    &&& forall|i: int, j: int|
        0 <= i <= j < ex.file_hunk_starts.len() ==> ex.file_hunk_starts[i]
            <= ex.file_hunk_starts[j]
}

/// Whatever the events, what is extracted from them has the shape of an
/// extraction.
pub proof fn lemma_extraction_shaped(events: Seq<DiffEventView>)
    ensures
        extraction_shaped(extraction_of(events)),
    decreases events.len(),
{
    if events.len() > 0 {
        lemma_extraction_shaped(events.drop_last());
    }
}

/// How many hunks a file has, going by the first-hunk indices: those from
/// its own index up to that of the next file, or up to the end of the hunk
/// list for the last file.
pub open spec fn hunks_between(starts: Seq<nat>, hunk_count: nat, i: int) -> int {
    if i + 1 < starts.len() {
        starts[i + 1] - starts[i]
    } else {
        hunk_count - starts[i]
    }
}

/// How many hunks file `i` of an extraction has.
pub open spec fn hunks_of_file(ex: ExtractionView, i: int) -> int {
    hunks_between(ex.file_hunk_starts, ex.hunks.len(), i)
}

} // verus!
