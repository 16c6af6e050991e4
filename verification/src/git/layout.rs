//! How the drawn lines of a list of hunks are laid out.
//!
//! The lines of all hunks stand in one flat list. Each hunk takes one line
//! for its header and one for each of its diff lines, so the place of every
//! header follows from the hunks before it.

use vstd::prelude::*;
use crate::git::highlight::{header_line, highlighted_body, plain_body};
use crate::git::style::LineView;
use crate::git::types::HunkView;

verus! {

/// Index of the header line of hunk `i` among the drawn lines: every hunk
/// before it takes one line for its header and one for each of its lines.
pub open spec fn offset_of(hunks: Seq<HunkView>, i: int) -> int
    decreases i,
{
    if i <= 0 {
        0
    } else {
        offset_of(hunks, i - 1) + 1 + hunks[i - 1].lines.len()
    }
}

/// How many lines are drawn for `hunks` in all.
pub open spec fn total_lines(hunks: Seq<HunkView>) -> int {
    offset_of(hunks, hunks.len() as int)
}

/// Whether `offsets` holds, for each hunk, the index of its header line.
pub open spec fn offsets_are(offsets: Seq<usize>, hunks: Seq<HunkView>) -> bool {
    &&& offsets.len() == hunks.len()
    &&& forall|i: int| 0 <= i < hunks.len() ==> #[trigger] offsets[i] == offset_of(hunks, i)
}

/// The drawn lines of hunk `i` after its header.
pub open spec fn body_at(shown: Seq<LineView>, hunks: Seq<HunkView>, i: int) -> Seq<LineView> {
    shown.subrange(offset_of(hunks, i) + 1, offset_of(hunks, i + 1))
}

/// Whether the first `upto` hunks have their header line at their offset.
pub open spec fn headers_upto(shown: Seq<LineView>, hunks: Seq<HunkView>, upto: int) -> bool {
    forall|i: int|
        0 <= i < upto ==> #[trigger] shown[offset_of(hunks, i)] == header_line(hunks[i].header)
}

/// Whether the first `upto` hunks are drawn without syntax colouring.
pub open spec fn plain_upto(shown: Seq<LineView>, hunks: Seq<HunkView>, upto: int) -> bool {
    forall|i: int|
        0 <= i < upto ==> #[trigger] body_at(shown, hunks, i) == plain_body(hunks[i].lines)
}

/// Whether the first `upto` hunks are drawn with a highlighter.
pub open spec fn highlighted_to(shown: Seq<LineView>, hunks: Seq<HunkView>, upto: int) -> bool {
    forall|i: int|
        0 <= i < upto ==> highlighted_body(#[trigger] body_at(shown, hunks, i), hunks[i].lines)
}

/// Whether `shown` draws `hunks` without syntax colouring. This fixes every
/// line: a header line per hunk, then one plain line per diff line.
pub open spec fn plain_layout(shown: Seq<LineView>, hunks: Seq<HunkView>) -> bool {
    &&& shown.len() == total_lines(hunks)
    &&& headers_upto(shown, hunks, hunks.len() as int)
    &&& plain_upto(shown, hunks, hunks.len() as int)
}

/// Whether `shown` draws `hunks` with a highlighter: a header line per hunk,
/// then one line per diff line, paired or alone.
pub open spec fn highlighted_layout(shown: Seq<LineView>, hunks: Seq<HunkView>) -> bool {
    &&& shown.len() == total_lines(hunks)
    &&& headers_upto(shown, hunks, hunks.len() as int)
    &&& highlighted_to(shown, hunks, hunks.len() as int)
}

/// No offset is negative.
pub proof fn lemma_offset_not_negative(hunks: Seq<HunkView>, i: int)
    ensures
        0 <= offset_of(hunks, i),
    decreases i,
{
    if i > 0 {
        lemma_offset_not_negative(hunks, i - 1);
    }
}

/// Offsets grow with the hunk index, and strictly so.
pub proof fn lemma_offset_grows(hunks: Seq<HunkView>, a: int, b: int)
    requires
        0 <= a <= b,
    ensures
        offset_of(hunks, a) <= offset_of(hunks, b),
        a < b ==> offset_of(hunks, a) < offset_of(hunks, b),
        0 <= offset_of(hunks, a),
    decreases b - a,
{
    lemma_offset_not_negative(hunks, a);
    if a < b {
        lemma_offset_grows(hunks, a, b - 1);
    }
}

/// The header offsets of a result are strictly increasing, one per hunk.
pub proof fn lemma_hunk_offsets_increase(offsets: Seq<usize>, hunks: Seq<HunkView>)
    requires
        offsets_are(offsets, hunks),
    ensures
        offsets.len() == hunks.len(),
        forall|i: int, j: int| 0 <= i < j < offsets.len() ==> offsets[i] < offsets[j],
{
    assert forall|i: int, j: int| 0 <= i < j < offsets.len() implies offsets[i] < offsets[j] by {
        lemma_offset_grows(hunks, i, j);
    }
}

/// Lines appended after the first `upto` hunks leave the header and the
/// body of each of those hunks as they were.
pub proof fn lemma_block_kept(
    earlier: Seq<LineView>,
    later: Seq<LineView>,
    hunks: Seq<HunkView>,
    upto: int,
    i: int,
)
    requires
        0 <= i < upto,
        earlier.len() == offset_of(hunks, upto),
        earlier.len() <= later.len(),
        later.subrange(0, earlier.len() as int) == earlier,
    ensures
        later[offset_of(hunks, i)] == earlier[offset_of(hunks, i)],
        body_at(later, hunks, i) == body_at(earlier, hunks, i),
{
    lemma_offset_grows(hunks, i, i + 1);
    lemma_offset_grows(hunks, i + 1, upto);
}

/// Lines appended after the first `upto` hunks leave what was drawn for
/// those hunks as it was.
pub proof fn lemma_layout_kept(
    earlier: Seq<LineView>,
    later: Seq<LineView>,
    hunks: Seq<HunkView>,
    upto: int,
)
    requires
        0 <= upto,
        earlier.len() == offset_of(hunks, upto),
        earlier.len() <= later.len(),
        later.subrange(0, earlier.len() as int) == earlier,
    ensures
        headers_upto(earlier, hunks, upto) ==> headers_upto(later, hunks, upto),
        plain_upto(earlier, hunks, upto) ==> plain_upto(later, hunks, upto),
        highlighted_to(earlier, hunks, upto) ==> highlighted_to(later, hunks, upto),
{
    if headers_upto(earlier, hunks, upto) {
        assert forall|i: int| 0 <= i < upto implies #[trigger] later[offset_of(hunks, i)]
            == header_line(hunks[i].header) by {
            lemma_block_kept(earlier, later, hunks, upto, i);
        }
    }
    if plain_upto(earlier, hunks, upto) {
        assert forall|i: int| 0 <= i < upto implies #[trigger] body_at(later, hunks, i)
            == plain_body(hunks[i].lines) by {
            lemma_block_kept(earlier, later, hunks, upto, i);
        }
    }
    if highlighted_to(earlier, hunks, upto) {
        assert forall|i: int| 0 <= i < upto implies highlighted_body(
            #[trigger] body_at(later, hunks, i),
            hunks[i].lines,
        ) by {
            lemma_block_kept(earlier, later, hunks, upto, i);
        }
    }
}

/// Two lists of lines that both draw the first `upto` hunks without syntax
/// colouring agree on the lines of those hunks.
pub proof fn lemma_plain_lines_agree(
    a: Seq<LineView>,
    b: Seq<LineView>,
    hunks: Seq<HunkView>,
    upto: int,
)
    requires
        0 <= upto <= hunks.len(),
        plain_layout(a, hunks),
        plain_layout(b, hunks),
    ensures
        a.subrange(0, offset_of(hunks, upto)) == b.subrange(0, offset_of(hunks, upto)),
    decreases upto,
{
    lemma_offset_grows(hunks, upto, hunks.len() as int);
    if upto > 0 {
        lemma_plain_lines_agree(a, b, hunks, upto - 1);
        lemma_offset_grows(hunks, upto - 1, upto);
        let at = offset_of(hunks, upto - 1);
        let end = offset_of(hunks, upto);
        assert(a[at] == b[at]);
        assert(body_at(a, hunks, upto - 1) == body_at(b, hunks, upto - 1));
        assert(a.subrange(0, end) =~= a.subrange(0, at) + seq![a[at]] + body_at(a, hunks, upto - 1));
        assert(b.subrange(0, end) =~= b.subrange(0, at) + seq![b[at]] + body_at(b, hunks, upto - 1));
    } else {
        assert(a.subrange(0, 0) =~= b.subrange(0, 0));
    }
}

/// Drawing without syntax colouring fixes every line: two lists of lines
/// that both draw the same hunks in this way are the same list.
pub proof fn lemma_plain_layout_is_unique(a: Seq<LineView>, b: Seq<LineView>, hunks: Seq<HunkView>)
    requires
        plain_layout(a, hunks),
        plain_layout(b, hunks),
    ensures
        a == b,
{
    lemma_plain_lines_agree(a, b, hunks, hunks.len() as int);
    assert(a.subrange(0, a.len() as int) =~= a);
    assert(b.subrange(0, b.len() as int) =~= b);
}

} // verus!
