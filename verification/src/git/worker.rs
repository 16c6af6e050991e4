//! The diff worker: what it makes of one request, and how its loop goes on.
//!
//! The worker owns the repository and serves one request at a time. The loop
//! itself, which waits for requests and sends results, belongs to the
//! caller; every decision it takes is made here.

use vstd::prelude::*;
use crate::git::extract::{
    DiffEventView, Extraction, ExtractionView, Traversal, extract, extraction_of,
    hunks_between, hunks_of_file, lemma_extraction_shaped, starts_view,
};
use crate::git::highlight::{HighlightAssets, highlight_hunks};
use crate::git::layout::{
    highlighted_layout, lemma_hunk_offsets_increase, lemma_offset_grows, offsets_are, plain_layout,
};
use crate::git::resolve::ResolveError;
use crate::git::text::{default_extension, extension_of, file_ext};
use crate::git::types::{
    DiffMode, FileSummaryView, GitRequest, GitResultPayload, PayloadView,
};

verus! {

/// The line index at which each file begins: the header offset of the
/// file's first hunk, or zero for a file that has no hunks.
pub open spec fn line_offsets_of(hunk_offsets: Seq<usize>, starts: Seq<nat>) -> Seq<usize> {
    Seq::new(
        starts.len(),
        |i: int|
            if hunks_between(starts, hunk_offsets.len(), i) > 0 && starts[i] < hunk_offsets.len() {
                hunk_offsets[starts[i] as int]
            } else {
                0usize
            },
    )
}

/// Maps each file to the line index of the header of its first hunk. A file
/// without hunks gets zero, whether or not a file with hunks follows it.
pub fn file_line_offsets(
    hunk_offsets: &Vec<usize>,
    file_hunk_starts: &Vec<usize>,
) -> (r: Vec<usize>)
    ensures
        r@ == line_offsets_of(hunk_offsets@, starts_view(file_hunk_starts@)),
{
    let ghost want = line_offsets_of(hunk_offsets@, starts_view(file_hunk_starts@));
    let mut offsets: Vec<usize> = Vec::new();
    let mut i: usize = 0;
    while i < file_hunk_starts.len()
        invariant
            i <= file_hunk_starts.len(),
            want == line_offsets_of(hunk_offsets@, starts_view(file_hunk_starts@)),
            offsets@ == want.take(i as int),
        decreases file_hunk_starts.len() - i,
    {
        let start: usize = file_hunk_starts[i];
        let next: usize = if i + 1 < file_hunk_starts.len() {
            file_hunk_starts[i + 1]
        } else {
            hunk_offsets.len()
        };
        let offset: usize = if start < next && start < hunk_offsets.len() {
            hunk_offsets[start]
        } else {
            0
        };
        offsets.push(offset);
        assert(offsets@ =~= want.take(i + 1));
        i = i + 1;
    }
    assert(want.take(file_hunk_starts.len() as int) =~= want);
    offsets
}

/// The payload that carries a mode and nothing else.
pub open spec fn empty_payload(mode: DiffMode) -> PayloadView {
    PayloadView {
        mode,
        hunks: Seq::empty(),
        files: Seq::empty(),
        highlighted_lines: Seq::empty(),
        hunk_offsets: Seq::empty(),
        file_line_offsets: Seq::empty(),
    }
}

/// Whether `payload` is a result for `mode` of a traversal with the given
/// events.
///
/// The hunks and files are those extracted from the events. The lines draw
/// those hunks, with a highlighter or without. The hunk offsets are the
/// header positions of the hunks among the lines, and each file's line
/// offset is the header position of the hunk the file starts at.
pub open spec fn payload_for(
    payload: PayloadView,
    mode: DiffMode,
    events: Seq<DiffEventView>,
) -> bool {
    let ex = extraction_of(events);
    &&& payload.mode == mode
    &&& payload.hunks == ex.hunks
    &&& payload.files == ex.files
    &&& offsets_are(payload.hunk_offsets, ex.hunks)
    &&& payload.file_line_offsets == line_offsets_of(payload.hunk_offsets, ex.file_hunk_starts)
    &&& plain_layout(payload.highlighted_lines, ex.hunks) || highlighted_layout(
        payload.highlighted_lines,
        ex.hunks,
    )
}

/// The file extension that selects the syntax of a result: that of the
/// first file's path, or `txt` where there is no file.
pub open spec fn syntax_extension(files: Seq<FileSummaryView>) -> Seq<char> {
    if files.len() > 0 {
        extension_of(files[0].path)
    } else {
        default_extension()
    }
}

/// Whether the lines of `payload` draw its hunks in the way the assets
/// allow: with a highlighter where the assets can colour a file of the
/// extension that selects the syntax, and without syntax colouring where
/// they cannot.
pub open spec fn drawn_as_assets_allow(payload: PayloadView, assets: HighlightAssets) -> bool {
    if assets.can_color(syntax_extension(payload.files)) {
        highlighted_layout(payload.highlighted_lines, payload.hunks)
    } else {
        plain_layout(payload.highlighted_lines, payload.hunks)
    }
}

/// Builds the payload of a resolved diff from its traversal: extracts hunks
/// and files in one pass, draws the hunks, and maps each file to the line
/// its first hunk starts at. Of a traversal that was cut short the hunk
/// that was open is left out.
///
/// The syntax for all hunks is chosen by the extension of the first file's
/// path, or by `txt` where there is no file.
pub fn process_diff(
    mode: DiffMode,
    traversal: Traversal,
    assets: &HighlightAssets,
) -> (payload: GitResultPayload)
    ensures
        payload_for(payload@, mode, traversal.kept()),
        !assets.has_themes() ==> plain_layout(
            payload@.highlighted_lines,
            extraction_of(traversal.kept()).hunks,
        ),
        drawn_as_assets_allow(payload@, *assets),
{
    proof {
        reveal_strlit("txt");
        assert("txt"@ =~= default_extension());
    }
    let Extraction { hunks, file_hunk_starts, files } = extract(traversal);
    let (highlighted_lines, hunk_offsets) = if files.len() > 0 {
        highlight_hunks(&hunks, file_ext(files[0].path.as_str()), assets)
    } else {
        highlight_hunks(&hunks, "txt", assets)
    };
    let file_line_offsets = file_line_offsets(&hunk_offsets, &file_hunk_starts);
    GitResultPayload { mode, hunks, files, highlighted_lines, hunk_offsets, file_line_offsets }
}

/// Builds the payload for one request from the outcome of its resolution.
///
/// A resolved diff is processed in full. A resolution failure, whatever its
/// reason, gives the payload that carries the requested mode and nothing
/// else.
pub fn handle_request(
    mode: DiffMode,
    resolved: Result<Traversal, ResolveError>,
    assets: &HighlightAssets,
) -> (payload: GitResultPayload)
    ensures
        payload.mode == mode,
        resolved is Err ==> payload@ == empty_payload(mode),
        resolved matches Ok(traversal) ==> payload_for(payload@, mode, traversal.kept()),
        resolved matches Ok(traversal) ==> !assets.has_themes() ==> plain_layout(
            payload@.highlighted_lines,
            extraction_of(traversal.kept()).hunks,
        ),
        resolved is Ok ==> drawn_as_assets_allow(payload@, *assets),
{
    match resolved {
        Ok(traversal) => process_diff(mode, traversal, assets),
        Err(_) => {
            let payload = GitResultPayload {
                mode,
                hunks: Vec::new(),
                files: Vec::new(),
                highlighted_lines: Vec::new(),
                hunk_offsets: Vec::new(),
                file_line_offsets: Vec::new(),
            };
            assert(payload@.hunks =~= Seq::empty());
            assert(payload@.files =~= Seq::empty());
            assert(payload@.highlighted_lines =~= Seq::empty());
            payload
        },
    }
}

/// A diff without deltas has no events, and its payload holds nothing but
/// the mode: no hunk, no file, no line and no offset.
pub proof fn lemma_no_events_empty_payload(payload: PayloadView, mode: DiffMode)
    requires
        payload_for(payload, mode, Seq::empty()),
    ensures
        payload == empty_payload(mode),
{
    assert(payload.hunk_offsets =~= Seq::empty());
    assert(payload.file_line_offsets =~= Seq::empty());
    assert(payload.highlighted_lines =~= Seq::empty());
}

/// In every payload of a processed diff the hunk offsets are strictly
/// increasing, and there is one per hunk.
pub proof fn lemma_payload_hunk_offsets(
    payload: PayloadView,
    mode: DiffMode,
    events: Seq<DiffEventView>,
)
    requires
        payload_for(payload, mode, events),
    ensures
        payload.hunk_offsets.len() == payload.hunks.len(),
        forall|i: int, j: int|
            0 <= i < j < payload.hunk_offsets.len() ==> payload.hunk_offsets[i]
                < payload.hunk_offsets[j],
        forall|i: int|
            0 <= i < payload.hunk_offsets.len() ==> #[trigger] payload.hunk_offsets[i]
                < payload.highlighted_lines.len(),
{
    lemma_hunk_offsets_increase(payload.hunk_offsets, payload.hunks);
    assert forall|i: int| 0 <= i < payload.hunk_offsets.len() implies #[trigger] payload.hunk_offsets[i]
        < payload.highlighted_lines.len() by {
        lemma_offset_grows(payload.hunks, i, payload.hunks.len() as int);
    }
}

/// Whether the line offset of file `i` is where the file begins: zero for
/// a file without hunks, and for any other file the offset of the header of
/// its first hunk.
pub open spec fn file_offset_fits(payload: PayloadView, ex: ExtractionView, i: int) -> bool {
    if hunks_of_file(ex, i) == 0 {
        payload.file_line_offsets[i] == 0
    } else {
        &&& ex.file_hunk_starts[i] < payload.hunk_offsets.len()
        &&& payload.file_line_offsets[i] == payload.hunk_offsets[ex.file_hunk_starts[i] as int]
    }
}

/// In every payload of a processed diff there is one line offset per file:
/// zero for a file without hunks, and the header offset of its first hunk
/// for every other file.
pub proof fn lemma_payload_file_offsets(
    payload: PayloadView,
    mode: DiffMode,
    events: Seq<DiffEventView>,
)
    requires
        payload_for(payload, mode, events),
    ensures
        payload.file_line_offsets.len() == payload.files.len(),
        forall|i: int|
            0 <= i < payload.files.len() ==> #[trigger] file_offset_fits(
                payload,
                extraction_of(events),
                i,
            ),
{
    lemma_extraction_shaped(events);
}

/// Whether the worker's loop goes on.
#[derive(Debug, Clone, Copy, PartialEq, Eq, Structural)]
pub enum WorkerState {
    /// The worker holds the repository and takes requests.
    Running,
    /// The worker has ended. It takes no request and sends no result.
    Stopped,
}

/// What happens to the worker's loop.
pub enum WorkerEvent {
    /// A request arrived.
    Request(GitRequest),
    /// The request source was closed: no request can arrive any more.
    SourceClosed,
    /// A result was handed to the result channel; `delivered` tells whether
    /// there was still a receiver for it.
    Sent { delivered: bool },
}

/// The state after an event. A closed request source and an undelivered
/// result both end the worker; nothing starts it again.
pub open spec fn worker_step(state: WorkerState, event: WorkerEvent) -> WorkerState {
    match state {
        WorkerState::Stopped => WorkerState::Stopped,
        WorkerState::Running => match event {
            WorkerEvent::Request(_) => WorkerState::Running,
            WorkerEvent::SourceClosed => WorkerState::Stopped,
            WorkerEvent::Sent { delivered } => if delivered {
                WorkerState::Running
            } else {
                WorkerState::Stopped
            },
        },
    }
}

/// The request that an event makes the worker serve, if any: the request
/// that arrived, provided the worker is running.
pub open spec fn worker_serves(state: WorkerState, event: WorkerEvent) -> Option<GitRequest> {
    match (state, event) {
        (WorkerState::Running, WorkerEvent::Request(request)) => Some(request),
        _ => None,
    }
}

/// The state after a sequence of events.
pub open spec fn worker_run(state: WorkerState, events: Seq<WorkerEvent>) -> WorkerState
    decreases events.len(),
{
    if events.len() == 0 {
        state
    } else {
        worker_step(worker_run(state, events.drop_last()), events.last())
    }
}

/// The requests served over a sequence of events, in order. One result is
/// sent for each of them.
pub open spec fn worker_served(state: WorkerState, events: Seq<WorkerEvent>) -> Seq<GitRequest>
    decreases events.len(),
{
    if events.len() == 0 {
        Seq::empty()
    } else {
        let before = worker_served(state, events.drop_last());
        match worker_serves(worker_run(state, events.drop_last()), events.last()) {
            Some(request) => before.push(request),
            None => before,
        }
    }
}

impl WorkerState {
    /// The state at the start: running if the repository could be opened,
    /// stopped for good if not.
    pub fn start(opened: bool) -> (r: WorkerState)
        ensures
            r == (if opened {
                WorkerState::Running
            } else {
                WorkerState::Stopped
            }),
    {
        if opened {
            WorkerState::Running
        } else {
            WorkerState::Stopped
        }
    }

    /// Whether the loop is to wait for another request.
    pub fn is_running(&self) -> (r: bool)
        ensures
            r == (*self == WorkerState::Running),
    {
        match self {
            WorkerState::Running => true,
            WorkerState::Stopped => false,
        }
    }

    /// Takes in what the request source gave: a request, or `None` once the
    /// source is closed. Returns the next state and the request to serve
    /// now, if any.
    pub fn received(self, request: Option<GitRequest>) -> (r: (WorkerState, Option<GitRequest>))
        ensures
            r.0 == worker_step(self, received_event(request)),
            r.1 == worker_serves(self, received_event(request)),
    {
        match self {
            WorkerState::Stopped => (WorkerState::Stopped, None),
            WorkerState::Running => match request {
                Some(request) => (WorkerState::Running, Some(request)),
                None => (WorkerState::Stopped, None),
            },
        }
    }

    /// Takes in whether the result just sent had a receiver.
    pub fn sent(self, delivered: bool) -> (r: WorkerState)
        ensures
            r == worker_step(self, (WorkerEvent::Sent { delivered })),
    {
        match self {
            WorkerState::Stopped => WorkerState::Stopped,
            WorkerState::Running => if delivered {
                WorkerState::Running
            } else {
                WorkerState::Stopped
            },
        }
    }
}

/// The event that stands for what the request source gave.
pub open spec fn received_event(request: Option<GitRequest>) -> WorkerEvent {
    match request {
        Some(r) => WorkerEvent::Request(r),
        None => WorkerEvent::SourceClosed,
    }
}

/// A stopped worker stays stopped and serves nothing, whatever happens.
pub proof fn lemma_stopped_worker_is_done(events: Seq<WorkerEvent>)
    ensures
        worker_run(WorkerState::Stopped, events) == WorkerState::Stopped,
        worker_served(WorkerState::Stopped, events) == Seq::<GitRequest>::empty(),
    decreases events.len(),
{
    if events.len() > 0 {
        lemma_stopped_worker_is_done(events.drop_last());
    }
}

/// Running on through more events continues from the state reached, and
/// serves what was served before and then what is served from there.
pub proof fn lemma_worker_run_split(
    state: WorkerState,
    first: Seq<WorkerEvent>,
    second: Seq<WorkerEvent>,
)
    ensures
        worker_run(state, first + second) == worker_run(worker_run(state, first), second),
        worker_served(state, first + second) == worker_served(state, first) + worker_served(
            worker_run(state, first),
            second,
        ),
    decreases second.len(),
{
    if second.len() == 0 {
        assert(worker_served(state, first) + Seq::<GitRequest>::empty() =~= worker_served(
            state,
            first,
        ));
    } else {
        lemma_worker_run_split(state, first, second.drop_last());
        assert((first + second).drop_last() =~= first + second.drop_last());
        let mid = worker_run(state, first);
        match worker_serves(worker_run(mid, second.drop_last()), second.last()) {
            Some(request) => {
                assert(worker_served(state, first + second) =~= worker_served(state, first)
                    + worker_served(mid, second));
            },
            None => {},
        }
    }
}

/// Once the request source is closed the worker has ended: it is stopped
/// after every further event, and it serves no request that was not served
/// before the source closed.
pub proof fn lemma_closed_source_ends_worker(
    state: WorkerState,
    before: Seq<WorkerEvent>,
    after: Seq<WorkerEvent>,
)
    ensures
        worker_run(state, before.push(WorkerEvent::SourceClosed) + after) == WorkerState::Stopped,
        worker_served(state, before.push(WorkerEvent::SourceClosed) + after) == worker_served(
            state,
            before,
        ),
{
    let closed = before.push(WorkerEvent::SourceClosed);
    assert(closed.drop_last() =~= before);
    lemma_worker_run_split(state, closed, after);
    lemma_stopped_worker_is_done(after);
    assert(worker_served(state, before) + Seq::<GitRequest>::empty() =~= worker_served(
        state,
        before,
    ));
}

/// After a result found no receiver the worker has ended in the same way.
pub proof fn lemma_lost_receiver_ends_worker(
    state: WorkerState,
    before: Seq<WorkerEvent>,
    after: Seq<WorkerEvent>,
)
    ensures
        worker_run(state, before.push((WorkerEvent::Sent { delivered: false })) + after)
            == WorkerState::Stopped,
        worker_served(state, before.push((WorkerEvent::Sent { delivered: false })) + after)
            == worker_served(state, before),
{
    let lost = before.push(WorkerEvent::Sent { delivered: false });
    assert(lost.drop_last() =~= before);
    lemma_worker_run_split(state, lost, after);
    lemma_stopped_worker_is_done(after);
    assert(worker_served(state, before) + Seq::<GitRequest>::empty() =~= worker_served(
        state,
        before,
    ));
}

} // verus!
