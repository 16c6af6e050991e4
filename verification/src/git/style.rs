//! Render-ready text: colours, styles, spans and lines.
//!
//! These are plain values. A front end maps them one for one onto whatever
//! its drawing toolkit uses.

use vstd::prelude::*;

verus! {

/// A foreground or background colour.
#[derive(Debug, Clone, Copy, PartialEq, Eq)]
pub enum Color {
    Red,
    Green,
    Cyan,
    DarkGray,
    /// A 24-bit colour given by its red, green and blue components.
    Rgb(u8, u8, u8),
}

/// How a span is drawn.
#[derive(Debug, Clone, Copy, PartialEq, Eq)]
pub struct SpanStyle {
    /// Foreground colour; `None` leaves the terminal's own.
    pub fg: Option<Color>,
    /// Background colour; `None` leaves the terminal's own.
    pub bg: Option<Color>,
    pub bold: bool,
    pub italic: bool,
    pub underlined: bool,
}

impl SpanStyle {
    /// The style that changes nothing.
    pub open spec fn spec_plain() -> SpanStyle {
        SpanStyle { fg: None, bg: None, bold: false, italic: false, underlined: false }
    }

    /// A style that sets only the foreground colour.
    pub open spec fn spec_colored(color: Color) -> SpanStyle {
        SpanStyle { fg: Some(color), bg: None, bold: false, italic: false, underlined: false }
    }

    /// A style that sets the foreground colour and makes the text bold.
    pub open spec fn spec_emphasized(color: Color) -> SpanStyle {
        SpanStyle { fg: Some(color), bg: None, bold: true, italic: false, underlined: false }
    }

    /// The style that changes nothing.
    pub fn plain() -> (r: SpanStyle)
        ensures
            r == Self::spec_plain(),
    {
        SpanStyle { fg: None, bg: None, bold: false, italic: false, underlined: false }
    }

    /// A style that sets only the foreground colour.
    pub fn colored(color: Color) -> (r: SpanStyle)
        ensures
            r == Self::spec_colored(color),
    {
        SpanStyle { fg: Some(color), bg: None, bold: false, italic: false, underlined: false }
    }

    /// A style that sets the foreground colour and makes the text bold.
    pub fn emphasized(color: Color) -> (r: SpanStyle)
        ensures
            r == Self::spec_emphasized(color),
    {
        SpanStyle { fg: Some(color), bg: None, bold: true, italic: false, underlined: false }
    }
}

/// A run of text drawn in one style.
#[derive(Debug, Clone, PartialEq, Eq)]
pub struct StyledSpan {
    pub text: String,
    pub style: SpanStyle,
}

/// Mathematical value of a [`StyledSpan`].
pub struct SpanView {
    pub text: Seq<char>,
    pub style: SpanStyle,
}

impl View for StyledSpan {
    type V = SpanView;

    open spec fn view(&self) -> SpanView {
        SpanView { text: self.text@, style: self.style }
    }
}

/// The values of a sequence of spans, in order.
pub open spec fn spans_view(spans: Seq<StyledSpan>) -> Seq<SpanView> {
    Seq::new(spans.len(), |i: int| spans[i]@)
}

/// One line of render-ready text.
#[derive(Debug, Clone, PartialEq, Eq)]
pub struct StyledLine {
    pub spans: Vec<StyledSpan>,
}

/// Mathematical value of a [`StyledLine`]: its spans, left to right.
pub type LineView = Seq<SpanView>;

impl View for StyledLine {
    type V = Seq<SpanView>;

    open spec fn view(&self) -> Seq<SpanView> {
        spans_view(self.spans@)
    }
}

/// The values of a sequence of lines, in order.
pub open spec fn lines_view(lines: Seq<StyledLine>) -> Seq<LineView> {
    Seq::new(lines.len(), |i: int| lines[i]@)
}

/// The value of a list of lines with one more line is the value of the list
/// with the value of that line appended.
pub proof fn lemma_lines_view_push(lines: Seq<StyledLine>, line: StyledLine)
    ensures
        lines_view(lines.push(line)) == lines_view(lines).push(line@),
{
}

/// The text that a sequence of spans shows, styles left aside.
pub open spec fn spans_text(spans: Seq<SpanView>) -> Seq<char>
    decreases spans.len(),
{
    if spans.len() == 0 {
        Seq::empty()
    } else {
        spans_text(spans.drop_last()) + spans.last().text
    }
}

/// The text of two runs of spans, one after the other, is the text of the
/// first and then the text of the second.
pub proof fn lemma_spans_text_concat(first: Seq<SpanView>, second: Seq<SpanView>)
    ensures
        spans_text(first + second) == spans_text(first) + spans_text(second),
    decreases second.len(),
{
    if second.len() == 0 {
        assert(first + second =~= first);
        assert(spans_text(first) + spans_text(second) =~= spans_text(first));
    } else {
        lemma_spans_text_concat(first, second.drop_last());
        assert((first + second).drop_last() =~= first + second.drop_last());
        assert(spans_text(first + second) =~= spans_text(first) + spans_text(second));
    }
}

impl StyledSpan {
    /// A span showing `text` in `style`.
    pub fn styled(text: String, style: SpanStyle) -> (r: StyledSpan)
        ensures
            r@ == (SpanView { text: text@, style }),
    {
        StyledSpan { text, style }
    }

    /// A span showing `text` with no styling.
    pub fn raw(text: String) -> (r: StyledSpan)
        ensures
            r@ == (SpanView { text: text@, style: SpanStyle::spec_plain() }),
    {
        StyledSpan { text, style: SpanStyle::plain() }
    }
}

} // verus!
