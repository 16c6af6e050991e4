//! Word-level emphasis for a removed line and the added line that replaces
//! it.
//!
//! The alignment of the two lines comes from the `similar` crate. Its
//! pieces spell both lines; how they are styled and dealt out to the two
//! lines is decided here.

use vstd::prelude::*;
use vstd::string::*;
use crate::git::style::{Color, SpanStyle, SpanView, StyledSpan, spans_text, spans_view};

verus! {

/// What a piece of an alignment is: text only the old line has, text only
/// the new line has, or text both have.
#[derive(Debug, Clone, Copy, PartialEq, Eq, Structural)]
pub enum ChangeKind {
    Delete,
    Insert,
    Equal,
}

/// One piece of the alignment of two lines.
#[derive(Debug, Clone, PartialEq, Eq)]
pub struct WordChange {
    pub kind: ChangeKind,
    /// Whether the aligner marked the piece as changed within its line.
    pub emphasized: bool,
    pub text: String,
}

/// Mathematical value of a [`WordChange`].
pub struct WordChangeView {
    pub kind: ChangeKind,
    pub emphasized: bool,
    pub text: Seq<char>,
}

impl View for WordChange {
    type V = WordChangeView;

    open spec fn view(&self) -> WordChangeView {
        WordChangeView { kind: self.kind, emphasized: self.emphasized, text: self.text@ }
    }
}

/// The values of a sequence of alignment pieces, in order.
pub open spec fn changes_view(changes: Seq<WordChange>) -> Seq<WordChangeView> {
    Seq::new(changes.len(), |i: int| changes[i]@)
}

/// The style of a piece: unchanged text is muted; removed text is red and
/// inserted text green, in bold where the piece is emphasized.
pub open spec fn change_style(kind: ChangeKind, emphasized: bool) -> SpanStyle {
    match kind {
        ChangeKind::Equal => SpanStyle::spec_colored(Color::DarkGray),
        ChangeKind::Delete => if emphasized {
            SpanStyle::spec_emphasized(Color::Red)
        } else {
            SpanStyle::spec_colored(Color::Red)
        },
        ChangeKind::Insert => if emphasized {
            SpanStyle::spec_emphasized(Color::Green)
        } else {
            SpanStyle::spec_colored(Color::Green)
        },
    }
}

/// The span that shows a piece.
pub open spec fn change_span(change: WordChangeView) -> SpanView {
    SpanView { text: change.text, style: change_style(change.kind, change.emphasized) }
}

/// The spans of the old line: every piece but the inserted ones, in order.
pub open spec fn old_side(changes: Seq<WordChangeView>) -> Seq<SpanView> {
    changes.filter(|c: WordChangeView| c.kind != ChangeKind::Insert).map_values(
        |c: WordChangeView| change_span(c),
    )
}

/// The spans of the new line: every piece but the deleted ones, in order.
pub open spec fn new_side(changes: Seq<WordChangeView>) -> Seq<SpanView> {
    changes.filter(|c: WordChangeView| c.kind != ChangeKind::Delete).map_values(
        |c: WordChangeView| change_span(c),
    )
}

/// Appending a piece to an alignment appends its span to the old line,
/// unless the piece is an inserted one.
pub proof fn lemma_old_side_push(changes: Seq<WordChangeView>, change: WordChangeView)
    ensures
        old_side(changes.push(change)) == (if change.kind != ChangeKind::Insert {
            old_side(changes).push(change_span(change))
        } else {
            old_side(changes)
        }),
{
    reveal(Seq::filter);
    let keep = |c: WordChangeView| c.kind != ChangeKind::Insert;
    assert(changes.push(change).drop_last() =~= changes);
    assert(changes.push(change).filter(keep) =~= if keep(change) {
        changes.filter(keep).push(change)
    } else {
        changes.filter(keep)
    });
    assert(old_side(changes.push(change)) =~= if change.kind != ChangeKind::Insert {
        old_side(changes).push(change_span(change))
    } else {
        old_side(changes)
    });
}

/// Appending a piece to an alignment appends its span to the new line,
/// unless the piece is a deleted one.
pub proof fn lemma_new_side_push(changes: Seq<WordChangeView>, change: WordChangeView)
    ensures
        new_side(changes.push(change)) == (if change.kind != ChangeKind::Delete {
            new_side(changes).push(change_span(change))
        } else {
            new_side(changes)
        }),
{
    reveal(Seq::filter);
    let keep = |c: WordChangeView| c.kind != ChangeKind::Delete;
    assert(changes.push(change).drop_last() =~= changes);
    assert(changes.push(change).filter(keep) =~= if keep(change) {
        changes.filter(keep).push(change)
    } else {
        changes.filter(keep)
    });
    assert(new_side(changes.push(change)) =~= if change.kind != ChangeKind::Delete {
        new_side(changes).push(change_span(change))
    } else {
        new_side(changes)
    });
}

/// The texts of the pieces of an alignment joined in order, those of kind
/// `skip` left out.
pub open spec fn joined_text(changes: Seq<WordChangeView>, skip: ChangeKind) -> Seq<char>
    decreases changes.len(),
{
    if changes.len() == 0 {
        Seq::empty()
    } else if changes.last().kind == skip {
        joined_text(changes.drop_last(), skip)
    } else {
        joined_text(changes.drop_last(), skip) + changes.last().text
    }
}

/// Whether `changes` aligns `old_line` with `new_line`: its pieces other
/// than the inserted ones spell the old line, and its pieces other than the
/// deleted ones spell the new line.
pub open spec fn aligns(
    changes: Seq<WordChangeView>,
    old_line: Seq<char>,
    new_line: Seq<char>,
) -> bool {
    &&& joined_text(changes, ChangeKind::Insert) == old_line
    &&& joined_text(changes, ChangeKind::Delete) == new_line
}

/// The two sides of an alignment show the texts of its pieces: the old side
/// those of all pieces but the inserted ones, the new side those of all but
/// the deleted ones.
pub proof fn lemma_sides_show_the_pieces(changes: Seq<WordChangeView>)
    ensures
        spans_text(old_side(changes)) == joined_text(changes, ChangeKind::Insert),
        spans_text(new_side(changes)) == joined_text(changes, ChangeKind::Delete),
    decreases changes.len(),
{
    if changes.len() > 0 {
        let fewer = changes.drop_last();
        let last = changes.last();
        lemma_sides_show_the_pieces(fewer);
        assert(fewer.push(last) =~= changes);
        lemma_old_side_push(fewer, last);
        lemma_new_side_push(fewer, last);
        if last.kind != ChangeKind::Insert {
            assert(old_side(changes).drop_last() =~= old_side(fewer));
        }
        if last.kind != ChangeKind::Delete {
            assert(new_side(changes).drop_last() =~= new_side(fewer));
        }
    } else {
        reveal(Seq::filter);
        assert(old_side(changes) =~= Seq::<SpanView>::empty());
        assert(new_side(changes) =~= Seq::<SpanView>::empty());
    }
}

/// Whether a style is one that the old line of a pair uses: muted for
/// unchanged text, red for removed text, bold where it is emphasized.
pub open spec fn old_line_style(style: SpanStyle) -> bool {
    ||| style == SpanStyle::spec_colored(Color::DarkGray)
    ||| style == SpanStyle::spec_colored(Color::Red)
    ||| style == SpanStyle::spec_emphasized(Color::Red)
}

/// Whether a style is one that the new line of a pair uses: muted for
/// unchanged text, green for inserted text, bold where it is emphasized.
pub open spec fn new_line_style(style: SpanStyle) -> bool {
    ||| style == SpanStyle::spec_colored(Color::DarkGray)
    ||| style == SpanStyle::spec_colored(Color::Green)
    ||| style == SpanStyle::spec_emphasized(Color::Green)
}

/// Whatever the alignment, the old line of a pair shows only muted and red
/// spans, and the new line only muted and green ones.
pub proof fn lemma_sides_keep_their_colors(changes: Seq<WordChangeView>)
    ensures
        forall|i: int|
            0 <= i < old_side(changes).len() ==> old_line_style(
                (#[trigger] old_side(changes)[i]).style,
            ),
        forall|i: int|
            0 <= i < new_side(changes).len() ==> new_line_style(
                (#[trigger] new_side(changes)[i]).style,
            ),
    decreases changes.len(),
{
    if changes.len() > 0 {
        let fewer = changes.drop_last();
        lemma_sides_keep_their_colors(fewer);
        assert(fewer.push(changes.last()) =~= changes);
        lemma_old_side_push(fewer, changes.last());
        lemma_new_side_push(fewer, changes.last());
    } else {
        reveal(Seq::filter);
    }
}

/// Aligns two lines word by word. Calls `TextDiff::from_words`, walks its
/// operations with `TextDiff::iter_inline_changes` and copies out each piece
/// with its tag and its emphasis flag.
///
/// Relied on: the pieces spell both lines. Those that are not inserted are
/// slices of the old line that follow one another from its start to its
/// end, and those that are not deleted are such slices of the new line. How
/// the lines are cut into pieces is not claimed: the aligner works against
/// a deadline, so the same two lines need not give the same pieces twice.
#[verifier::external_body]
pub(crate) fn inline_word_changes(old_line: &str, new_line: &str) -> (r: Vec<WordChange>)
    ensures
        aligns(changes_view(r@), old_line@, new_line@),
{
    let diff = similar::TextDiff::from_words(old_line, new_line);
    let mut pieces = Vec::new();
    for op in diff.ops() {
        for change in diff.iter_inline_changes(op) {
            let kind = match change.tag() {
                similar::ChangeTag::Delete => ChangeKind::Delete,
                similar::ChangeTag::Insert => ChangeKind::Insert,
                similar::ChangeTag::Equal => ChangeKind::Equal,
            };
            for (emphasized, value) in change.iter_strings_lossy() {
                pieces.push(WordChange { kind, emphasized, text: value.into_owned() });
            }
        }
    }
    pieces
}

/// The span that shows one piece of an alignment.
pub fn span_of_change(change: &WordChange) -> (r: StyledSpan)
    ensures
        r@ == change_span(change@),
{
    let style = match change.kind {
        ChangeKind::Equal => SpanStyle::colored(Color::DarkGray),
        ChangeKind::Delete => if change.emphasized {
            SpanStyle::emphasized(Color::Red)
        } else {
            SpanStyle::colored(Color::Red)
        },
        ChangeKind::Insert => if change.emphasized {
            SpanStyle::emphasized(Color::Green)
        } else {
            SpanStyle::colored(Color::Green)
        },
    };
    StyledSpan::styled(change.text.clone(), style)
}

/// Deals the pieces of an alignment out to the old and the new line.
///
/// Unchanged pieces go to both lines, deleted pieces to the old line only and
/// inserted pieces to the new line only; the order is kept.
pub fn spans_of_changes(changes: &Vec<WordChange>) -> (r: (Vec<StyledSpan>, Vec<StyledSpan>))
    ensures
        spans_view(r.0@) == old_side(changes_view(changes@)),
        spans_view(r.1@) == new_side(changes_view(changes@)),
{
    let ghost all = changes_view(changes@);
    let mut old_spans: Vec<StyledSpan> = Vec::new();
    let mut new_spans: Vec<StyledSpan> = Vec::new();
    let mut i: usize = 0;
    proof {
        reveal(Seq::filter);
    }
    while i < changes.len()
        invariant
            i <= changes.len(),
            all == changes_view(changes@),
            spans_view(old_spans@) == old_side(all.take(i as int)),
            spans_view(new_spans@) == new_side(all.take(i as int)),
        decreases changes.len() - i,
    {
        let change = &changes[i];
        proof {
            assert(all.take(i + 1) =~= all.take(i as int).push(change@));
            lemma_old_side_push(all.take(i as int), change@);
            lemma_new_side_push(all.take(i as int), change@);
        }
        match change.kind {
            ChangeKind::Delete => {
                old_spans.push(span_of_change(change));
            },
            ChangeKind::Insert => {
                new_spans.push(span_of_change(change));
            },
            ChangeKind::Equal => {
                old_spans.push(span_of_change(change));
                new_spans.push(span_of_change(change));
            },
        }
        i = i + 1;
    }
    proof {
        assert(all.take(changes.len() as int) =~= all);
    }
    (old_spans, new_spans)
}

/// The word-level spans of a removed line and the added line that follows it:
/// first those of the old line, then those of the new one.
///
/// How the lines are cut into pieces is the aligner's choice. Whatever it
/// is, the spans are the two sides of one alignment of the two lines, so
/// the spans of the old line spell the old line and those of the new line
/// spell the new line.
pub fn word_diff_spans(old_line: &str, new_line: &str) -> (r: (Vec<StyledSpan>, Vec<StyledSpan>))
    ensures
        exists|changes: Seq<WordChangeView>|
            #![auto]
            aligns(changes, old_line@, new_line@) && spans_view(r.0@) == old_side(changes)
                && spans_view(r.1@) == new_side(changes),
        spans_text(spans_view(r.0@)) == old_line@,
        spans_text(spans_view(r.1@)) == new_line@,
{
    let changes = inline_word_changes(old_line, new_line);
    proof {
        lemma_sides_show_the_pieces(changes_view(changes@));
    }
    spans_of_changes(&changes)
}

} // verus!
