//! From hunks to render-ready lines.
//!
//! Every hunk becomes a header line followed by one line for each of its
//! diff lines, in order. A removed line directly followed by an added line
//! is drawn as a pair with word-level emphasis; every other line is drawn on
//! its own, with syntax colouring. Without a theme or a syntax to colour
//! with, each line is drawn in one colour chosen by its origin.

use vstd::prelude::*;
use vstd::string::*;
use crate::git::layout::{
    body_at, headers_upto, highlighted_layout, highlighted_to, lemma_layout_kept, offset_of,
    offsets_are, plain_layout, plain_upto,
};
use crate::git::style::{
    Color, LineView, SpanStyle, SpanView, StyledLine, StyledSpan, lemma_lines_view_push,
    lemma_spans_text_concat, lines_view, spans_text, spans_view,
};
use crate::git::syntax::{
    LineHighlighter, SyntaxChoice, SyntaxToken, default_syntaxes, default_themes,
    extension_listed, first_theme, next_line, plain_text_name, start_highlighter,
    syntax_extensions,
    syntax_for_extension, syntax_named, syntax_names, theme_named, theme_names, tokens_text,
};
use crate::git::text::{
    code_text, line_code, trim_newlines, trim_trailing_space, without_trailing_newlines,
    without_trailing_space,
};
use crate::git::types::{DiffLineView, OwnedDiffHunk, OwnedDiffLine, diff_lines_view, hunks_view};
use crate::git::words::{
    WordChangeView, aligns, changes_view, inline_word_changes, lemma_sides_keep_their_colors,
    lemma_sides_show_the_pieces, new_line_style, new_side, old_line_style, old_side,
    spans_of_changes,
};

verus! {

/// The colour that stands for an origin: red for removed, green for added,
/// muted for anything else.
pub open spec fn origin_color(origin: char) -> Color {
    if origin == '-' {
        Color::Red
    } else if origin == '+' {
        Color::Green
    } else {
        Color::DarkGray
    }
}

/// The span that leads a drawn line: the origin and a blank, in the origin's
/// colour.
pub open spec fn prefix_span(origin: char) -> SpanView {
    SpanView { text: seq![origin, ' '], style: SpanStyle::spec_colored(origin_color(origin)) }
}

/// The line drawn for a hunk header: the header without trailing white
/// space, in cyan.
pub open spec fn header_line(header: Seq<char>) -> LineView {
    seq![
        SpanView {
            text: without_trailing_space(header),
            style: SpanStyle::spec_colored(Color::Cyan),
        },
    ]
}

/// The line drawn for a diff line when nothing is there to colour syntax
/// with: origin, blank and content without trailing newlines, as one span in
/// the origin's colour.
pub open spec fn plain_line(line: DiffLineView) -> LineView {
    seq![
        SpanView {
            text: seq![line.origin, ' '] + without_trailing_newlines(line.content),
            style: SpanStyle::spec_colored(origin_color(line.origin)),
        },
    ]
}

/// The lines drawn for the diff lines of a hunk when nothing is there to
/// colour syntax with.
pub open spec fn plain_body(lines: Seq<DiffLineView>) -> Seq<LineView> {
    Seq::new(lines.len(), |k: int| plain_line(lines[k]))
}

/// The style a theme's token asks for. A colour counts only if it is not
/// fully transparent.
pub open spec fn token_style(token: SyntaxToken) -> SpanStyle {
    SpanStyle {
        fg: if token.foreground.a > 0 {
            Some(Color::Rgb(token.foreground.r, token.foreground.g, token.foreground.b))
        } else {
            None
        },
        bg: if token.background.a > 0 {
            Some(Color::Rgb(token.background.r, token.background.g, token.background.b))
        } else {
            None
        },
        bold: token.font_style & 1 != 0,
        italic: token.font_style & 4 != 0,
        underlined: token.font_style & 2 != 0,
    }
}

/// The span drawn for a token.
pub open spec fn token_span(token: SyntaxToken) -> SpanView {
    SpanView { text: token.text@, style: token_style(token) }
}

/// The syntax-coloured spans of a line of code, given what the tokenizer
/// made of it: one span per token, or the code as one unstyled span if the
/// tokenizer failed or found nothing.
pub open spec fn base_spans(code: Seq<char>, tokens: Option<Seq<SyntaxToken>>) -> Seq<SpanView> {
    match tokens {
        Some(t) => if t.len() > 0 {
            Seq::new(t.len(), |i: int| token_span(t[i]))
        } else {
            seq![SpanView { text: code, style: SpanStyle::spec_plain() }]
        },
        None => seq![SpanView { text: code, style: SpanStyle::spec_plain() }],
    }
}

/// What every outcome of the tokenizer has: its tokens are not empty and
/// together they spell a prefix of the code.
pub open spec fn tokens_fit(code: Seq<char>, tokens: Option<Seq<SyntaxToken>>) -> bool {
    tokens matches Some(t) ==> {
        &&& tokens_text(t).is_prefix_of(code)
        &&& forall|i: int| 0 <= i < t.len() ==> (#[trigger] t[i]).text@.len() > 0
    }
}

/// Whether `spans` are the syntax-coloured spans of `code` for some outcome
/// of the tokenizer.
pub open spec fn syntax_colored(spans: Seq<SpanView>, code: Seq<char>) -> bool {
    exists|tokens: Option<Seq<SyntaxToken>>|
        #![auto]
        tokens_fit(code, tokens) && spans == base_spans(code, tokens)
}

/// A line drawn on its own: the prefix of its origin, then the
/// syntax-coloured spans of its code.
pub open spec fn drawn_alone(out: LineView, line: DiffLineView) -> bool {
    &&& out.len() > 0
    &&& out[0] == prefix_span(line.origin)
    &&& syntax_colored(out.subrange(1, out.len() as int), code_text(line.content))
}

/// Two lines drawn as a pair, for some alignment of the words of their
/// codes: the removed prefix and the old side, then the added prefix and the
/// new side.
pub open spec fn drawn_as_pair(
    old_out: LineView,
    new_out: LineView,
    old_code: Seq<char>,
    new_code: Seq<char>,
) -> bool {
    exists|changes: Seq<WordChangeView>|
        #![auto]
        aligns(changes, old_code, new_code) && old_out == seq![prefix_span('-')] + old_side(
            changes,
        ) && new_out == seq![prefix_span('+')] + new_side(changes)
}

/// The drawn pair of line `k` and the line after it.
pub open spec fn pair_drawn_at(out: Seq<LineView>, lines: Seq<DiffLineView>, k: int) -> bool {
    drawn_as_pair(
        out[k],
        out[k + 1],
        code_text(lines[k].content),
        code_text(lines[k + 1].content),
    )
}

/// Whether line `k` is a removed line directly followed by an added line.
pub open spec fn pairs_with_next(lines: Seq<DiffLineView>, k: int) -> bool {
    lines[k].origin == '-' && k + 1 < lines.len() && lines[k + 1].origin == '+'
}

/// Whether line `k` is an added line directly preceded by a removed line.
pub open spec fn pairs_with_prev(lines: Seq<DiffLineView>, k: int) -> bool {
    lines[k].origin == '+' && k > 0 && lines[k - 1].origin == '-'
}

/// Whether the first `upto` lines of `out` draw the first `upto` diff lines
/// of `lines` with a highlighter: each removed line that an added line
/// follows forms a pair with it, every other line is drawn alone.
pub open spec fn highlighted_upto(
    out: Seq<LineView>,
    lines: Seq<DiffLineView>,
    upto: int,
) -> bool {
    forall|k: int|
        #![trigger out[k]]
        0 <= k < upto ==> if pairs_with_next(lines, k) {
            k + 1 < upto && pair_drawn_at(out, lines, k)
        } else if pairs_with_prev(lines, k) {
            true
        } else {
            drawn_alone(out[k], lines[k])
        }
}

/// Whether `out` draws the diff lines of a hunk with a highlighter.
pub open spec fn highlighted_body(out: Seq<LineView>, lines: Seq<DiffLineView>) -> bool {
    out.len() == lines.len() && highlighted_upto(out, lines, lines.len() as int)
}

/// The value of what the tokenizer returned.
pub open spec fn tokens_view(tokens: Option<Vec<SyntaxToken>>) -> Option<Seq<SyntaxToken>> {
    match tokens {
        Some(t) => Some(t@),
        None => None,
    }
}

/// The span that leads a drawn line.
pub fn prefix_for(origin: char) -> (r: StyledSpan)
    ensures
        r@ == prefix_span(origin),
{
    let color = if origin == '-' {
        Color::Red
    } else if origin == '+' {
        Color::Green
    } else {
        Color::DarkGray
    };
    let mut text = String::new();
    text.push(origin);
    text.push(' ');
    assert(text@ =~= seq![origin, ' ']);
    StyledSpan::styled(text, SpanStyle::colored(color))
}

/// A line made of the prefix of `origin` and then `spans`.
pub fn prefixed_line(origin: char, spans: Vec<StyledSpan>) -> (r: StyledLine)
    ensures
        r@ == seq![prefix_span(origin)] + spans_view(spans@),
{
    let mut all: Vec<StyledSpan> = Vec::new();
    all.push(prefix_for(origin));
    let mut rest = spans;
    all.append(&mut rest);
    StyledLine { spans: all }
}

/// The line drawn for a hunk header.
pub fn header_line_of(header: &str) -> (r: StyledLine)
    ensures
        r@ == header_line(header@),
{
    let text = String::from_str(trim_trailing_space(header));
    let mut spans: Vec<StyledSpan> = Vec::new();
    spans.push(StyledSpan::styled(text, SpanStyle::colored(Color::Cyan)));
    StyledLine { spans }
}

/// The span drawn for a token of the tokenizer.
pub fn syntect_to_span(token: &SyntaxToken) -> (r: StyledSpan)
    ensures
        r@ == token_span(*token),
{
    let fg = if token.foreground.a > 0 {
        Some(Color::Rgb(token.foreground.r, token.foreground.g, token.foreground.b))
    } else {
        None
    };
    let bg = if token.background.a > 0 {
        Some(Color::Rgb(token.background.r, token.background.g, token.background.b))
    } else {
        None
    };
    let style = SpanStyle {
        fg,
        bg,
        bold: token.font_style & 1 != 0,
        italic: token.font_style & 4 != 0,
        underlined: token.font_style & 2 != 0,
    };
    StyledSpan::styled(token.text.clone(), style)
}

/// The syntax-coloured spans of a line of code, given what the tokenizer
/// made of it.
pub fn spans_of_tokens(code: &str, tokens: &Option<Vec<SyntaxToken>>) -> (r: Vec<StyledSpan>)
    ensures
        spans_view(r@) == base_spans(code@, tokens_view(*tokens)),
{
    let mut spans: Vec<StyledSpan> = Vec::new();
    if let Some(found) = tokens {
        let mut i: usize = 0;
        while i < found.len()
            invariant
                i <= found.len(),
                spans.len() == i,
                forall|j: int| 0 <= j < i ==> (#[trigger] spans@[j])@ == token_span(found@[j]),
            decreases found.len() - i,
        {
            spans.push(syntect_to_span(&found[i]));
            i = i + 1;
        }
        if found.len() > 0 {
            return spans;
        }
    }
    spans.push(StyledSpan::raw(String::from_str(code)));
    spans
}

/// Colours one line of code with the tokenizer, which moves on to the next
/// line. Whatever the tokenizer makes of the line, the spans are those of
/// its tokens, or the code as one unstyled span.
pub(crate) fn build_syntect_spans(
    code: &str,
    highlighter: &mut LineHighlighter<'_>,
) -> (r: Vec<StyledSpan>)
    ensures
        syntax_colored(spans_view(r@), code@),
{
    let tokens = next_line(highlighter, code);
    spans_of_tokens(code, &tokens)
}

/// Appends to `out` the lines of a hunk drawn without syntax colouring: one
/// span per line, in the colour of the line's origin.
pub fn emit_plain_hunk_lines(lines: &Vec<OwnedDiffLine>, out: &mut Vec<StyledLine>)
    ensures
        lines_view(final(out)@) == lines_view(old(out)@) + plain_body(diff_lines_view(lines@)),
{
    let ghost before = lines_view(old(out)@);
    let ghost body = plain_body(diff_lines_view(lines@));
    let mut k: usize = 0;
    while k < lines.len()
        invariant
            k <= lines.len(),
            before == lines_view(old(out)@),
            body == plain_body(diff_lines_view(lines@)),
            lines_view(out@) == before + body.take(k as int),
        decreases lines.len() - k,
    {
        let line = &lines[k];
        let color = if line.origin == '-' {
            Color::Red
        } else if line.origin == '+' {
            Color::Green
        } else {
            Color::DarkGray
        };
        let mut text = String::new();
        text.push(line.origin);
        text.push(' ');
        text.append(trim_newlines(line.content.as_str()));
        assert(text@ =~= seq![line.origin, ' '] + without_trailing_newlines(line.content@));
        let mut spans: Vec<StyledSpan> = Vec::new();
        spans.push(StyledSpan::styled(text, SpanStyle::colored(color)));
        let drawn = StyledLine { spans };
        proof {
            assert(drawn@ =~= plain_line(line@));
            lemma_lines_view_push(out@, drawn);
        }
        out.push(drawn);
        k = k + 1;
    }
}

/// Appends to `out` the lines of a hunk drawn with a highlighter.
///
/// Every diff line is tokenized, in order, so that the tokenizer sees the
/// hunk as one block. A removed line directly followed by an added line is
/// then drawn as a pair from the alignment of their words; every other line
/// is drawn alone from its tokens.
pub(crate) fn emit_highlighted_hunk_lines(
    lines: &Vec<OwnedDiffLine>,
    highlighter: &mut LineHighlighter<'_>,
    out: &mut Vec<StyledLine>,
)
    ensures
        final(out)@.len() == old(out)@.len() + lines@.len(),
        lines_view(final(out)@).subrange(0, old(out)@.len() as int) == lines_view(old(out)@),
        highlighted_body(
            lines_view(final(out)@).subrange(old(out)@.len() as int, final(out)@.len() as int),
            diff_lines_view(lines@),
        ),
{
    let ghost before = lines_view(old(out)@);
    let ghost all = diff_lines_view(lines@);
    let ghost mut drawn: Seq<LineView> = Seq::empty();
    let mut k: usize = 0;
    while k < lines.len()
        invariant
            k <= lines.len(),
            before == lines_view(old(out)@),
            all == diff_lines_view(lines@),
            drawn.len() == k,
            lines_view(out@) == before + drawn,
            highlighted_upto(drawn, all, k as int),
            k < lines.len() ==> !pairs_with_prev(all, k as int),
        decreases lines.len() - k,
    {
        let line = &lines[k];
        let code = line_code(line.content.as_str());
        let base = build_syntect_spans(code, highlighter);
        if line.origin == '-' && k + 1 < lines.len() && lines[k + 1].origin == '+' {
            let next_code = line_code(lines[k + 1].content.as_str());
            let _ = build_syntect_spans(next_code, highlighter);
            let changes = inline_word_changes(code, next_code);
            let (old_spans, new_spans) = spans_of_changes(&changes);
            let old_line = prefixed_line('-', old_spans);
            let new_line = prefixed_line('+', new_spans);
            proof {
                drawn = drawn.push(old_line@).push(new_line@);
                lemma_lines_view_push(out@, old_line);
                lemma_lines_view_push(out@.push(old_line), new_line);
            }
            out.push(old_line);
            out.push(new_line);
            k = k + 2;
        } else {
            let alone = prefixed_line(line.origin, base);
            proof {
                drawn = drawn.push(alone@);
                assert(alone@.subrange(1, alone@.len() as int) =~= spans_view(base@));
                lemma_lines_view_push(out@, alone);
            }
            out.push(alone);
            k = k + 1;
        }
    }
}

/// The syntax definitions and themes that highlighting draws on.
pub struct HighlightAssets {
    syntaxes: syntect::parsing::SyntaxSet,
    themes: Option<syntect::highlighting::ThemeSet>,
}

impl HighlightAssets {
    /// Whether the assets come with a set of themes.
    pub closed spec fn has_themes(&self) -> bool {
        self.themes is Some
    }

    /// Whether the assets hold what it takes to colour a file of the given
    /// extension: a theme, and a syntax that is registered for the extension
    /// or else the one for plain text.
    pub closed spec fn can_color(&self, ext: Seq<char>) -> bool {
        match self.themes {
            Some(themes) => theme_names(themes).len() > 0 && syntax_available(self.syntaxes, ext),
            None => false,
        }
    }

    /// Without a set of themes nothing can be coloured.
    pub proof fn lemma_color_needs_themes(&self, ext: Seq<char>)
        ensures
            self.can_color(ext) ==> self.has_themes(),
    {
    }

    /// The syntax definitions and themes that come built in. They colour a
    /// file of any extension: there is a theme, and the syntax for plain
    /// text is there for every extension that has none of its own.
    pub fn load_defaults() -> (r: HighlightAssets)
        ensures
            r.has_themes(),
            forall|ext: Seq<char>| r.can_color(ext),
    {
        HighlightAssets { syntaxes: default_syntaxes(), themes: Some(default_themes()) }
    }

    /// The built-in syntax definitions without any theme. Hunks are then
    /// drawn without syntax colouring, whatever the extension.
    pub fn without_themes() -> (r: HighlightAssets)
        ensures
            !r.has_themes(),
            forall|ext: Seq<char>| !r.can_color(ext),
    {
        HighlightAssets { syntaxes: default_syntaxes(), themes: None }
    }
}

/// Draws `hunks` with the given syntax and theme, or without syntax
/// colouring if there is none of them.
fn render_hunks<'a>(
    hunks: &Vec<OwnedDiffHunk>,
    tools: &Option<(SyntaxChoice<'a>, &'a syntect::highlighting::Theme)>,
) -> (r: (Vec<StyledLine>, Vec<usize>))
    ensures
        offsets_are(r.1@, hunks_view(hunks@)),
        tools is None ==> plain_layout(lines_view(r.0@), hunks_view(hunks@)),
        tools is Some ==> highlighted_layout(lines_view(r.0@), hunks_view(hunks@)),
{
    let ghost all = hunks_view(hunks@);
    let mut out: Vec<StyledLine> = Vec::new();
    let mut offsets: Vec<usize> = Vec::new();
    let mut i: usize = 0;
    while i < hunks.len()
        invariant
            i <= hunks.len(),
            all == hunks_view(hunks@),
            offsets@.len() == i,
            forall|j: int| 0 <= j < i ==> #[trigger] offsets@[j] == offset_of(all, j),
            out@.len() == offset_of(all, i as int),
            headers_upto(lines_view(out@), all, i as int),
            tools is None ==> plain_upto(lines_view(out@), all, i as int),
            tools is Some ==> highlighted_to(lines_view(out@), all, i as int),
        decreases hunks.len() - i,
    {
        let hunk = &hunks[i];
        let ghost earlier = lines_view(out@);
        let ghost at = out@.len() as int;
        offsets.push(out.len());
        let header = header_line_of(hunk.header.as_str());
        proof {
            lemma_lines_view_push(out@, header);
        }
        out.push(header);
        match tools {
            None => {
                emit_plain_hunk_lines(&hunk.lines, &mut out);
            },
            Some((choice, theme)) => {
                let mut highlighter = start_highlighter(choice, theme);
                emit_highlighted_hunk_lines(&hunk.lines, &mut highlighter, &mut out);
            },
        }
        proof {
            let shown = lines_view(out@);
            assert(shown.subrange(0, at) =~= earlier);
            lemma_layout_kept(earlier, shown, all, i as int);
            assert(shown.subrange(0, at + 1)[at] == shown[at]);
            if tools is None {
                assert(body_at(shown, all, i as int) =~= plain_body(hunk@.lines));
            }
        }
        i = i + 1;
    }
    (out, offsets)
}

/// Whether a set of syntax definitions has a syntax to colour a file of the
/// given extension with: one registered for the extension, or the one for
/// plain text.
pub open spec fn syntax_available(syntaxes: syntect::parsing::SyntaxSet, ext: Seq<char>) -> bool {
    extension_listed(syntax_extensions(syntaxes), ext) || syntax_names(syntaxes).contains(
        plain_text_name(),
    )
}

/// The theme to colour with: the one named `base16-ocean.dark`, or failing
/// that the first one there is. There is one exactly if the set holds any
/// theme at all.
fn pick_theme<'a>(
    themes: &'a syntect::highlighting::ThemeSet,
) -> (r: Option<&'a syntect::highlighting::Theme>)
    ensures
        r is Some <==> theme_names(*themes).len() > 0,
{
    match theme_named(themes, "base16-ocean.dark") {
        Some(theme) => Some(theme),
        None => first_theme(themes),
    }
}

/// The syntax to colour with: the one registered for the extension, or
/// failing that the one for plain text. There is one exactly if the set
/// holds either of them.
fn pick_syntax<'a>(
    syntaxes: &'a syntect::parsing::SyntaxSet,
    ext: &str,
) -> (r: Option<SyntaxChoice<'a>>)
    ensures
        r is Some <==> syntax_available(*syntaxes, ext@),
{
    proof {
        reveal_strlit("Plain Text");
        assert("Plain Text"@ =~= plain_text_name());
    }
    match syntax_for_extension(syntaxes, ext) {
        Some(choice) => Some(choice),
        None => syntax_named(syntaxes, "Plain Text"),
    }
}

/// Turns hunks into render-ready lines and the index of each hunk's header
/// line among them.
///
/// `ext` is the file extension that selects the syntax for all hunks. Each
/// hunk is tokenized from a fresh start. Where the assets hold a theme and
/// a syntax for the extension, or else the one for plain text, the hunks
/// are drawn with a highlighter. Where they do not, the hunks are drawn
/// without syntax colouring, and the result is then fixed by the hunks
/// alone.
pub fn highlight_hunks(
    hunks: &Vec<OwnedDiffHunk>,
    ext: &str,
    assets: &HighlightAssets,
) -> (r: (Vec<StyledLine>, Vec<usize>))
    ensures
        offsets_are(r.1@, hunks_view(hunks@)),
        plain_layout(lines_view(r.0@), hunks_view(hunks@)) || highlighted_layout(
            lines_view(r.0@),
            hunks_view(hunks@),
        ),
        !assets.has_themes() ==> plain_layout(lines_view(r.0@), hunks_view(hunks@)),
        assets.can_color(ext@) ==> highlighted_layout(lines_view(r.0@), hunks_view(hunks@)),
        !assets.can_color(ext@) ==> plain_layout(lines_view(r.0@), hunks_view(hunks@)),
{
    let theme = match &assets.themes {
        Some(themes) => pick_theme(themes),
        None => None,
    };
    let tools = match theme {
        Some(theme) => match pick_syntax(&assets.syntaxes, ext) {
            Some(choice) => Some((choice, theme)),
            None => None,
        },
        None => None,
    };
    render_hunks(hunks, &tools)
}

/// With a highlighter every drawn line leads with the prefix of its origin,
/// whether it is drawn alone or as one of a pair.
pub proof fn lemma_drawn_lines_lead_with_origin(out: Seq<LineView>, lines: Seq<DiffLineView>)
    requires
        highlighted_body(out, lines),
    ensures
        forall|k: int|
            0 <= k < lines.len() ==> (#[trigger] out[k]).len() > 0 && out[k][0] == prefix_span(
                lines[k].origin,
            ),
{
    assert forall|k: int| 0 <= k < lines.len() implies (#[trigger] out[k]).len() > 0 && out[k][0]
        == prefix_span(lines[k].origin) by {
        if pairs_with_next(lines, k) {
            assert(pair_drawn_at(out, lines, k));
        } else if pairs_with_prev(lines, k) {
            assert(pairs_with_next(lines, k - 1));
            assert(pair_drawn_at(out, lines, k - 1));
        }
    }
}

/// In a pair the old line is drawn in muted and red only and the new line
/// in muted and green only, apart from their prefixes.
pub proof fn lemma_pair_keeps_its_colors(
    old_out: LineView,
    new_out: LineView,
    old_code: Seq<char>,
    new_code: Seq<char>,
)
    requires
        drawn_as_pair(old_out, new_out, old_code, new_code),
    ensures
        forall|i: int| 1 <= i < old_out.len() ==> old_line_style((#[trigger] old_out[i]).style),
        forall|i: int| 1 <= i < new_out.len() ==> new_line_style((#[trigger] new_out[i]).style),
{
    let changes = choose|changes: Seq<WordChangeView>|
        #![auto]
        aligns(changes, old_code, new_code) && old_out == seq![prefix_span('-')] + old_side(
            changes,
        ) && new_out == seq![prefix_span('+')] + new_side(changes);
    lemma_sides_keep_their_colors(changes);
    assert forall|i: int| 1 <= i < old_out.len() implies old_line_style(
        (#[trigger] old_out[i]).style,
    ) by {
        assert(old_out[i] == old_side(changes)[i - 1]);
    }
    assert forall|i: int| 1 <= i < new_out.len() implies new_line_style(
        (#[trigger] new_out[i]).style,
    ) by {
        assert(new_out[i] == new_side(changes)[i - 1]);
    }
}

/// The text of a line that starts with the prefix of an origin: the origin,
/// a blank, and the text of the spans after the prefix.
pub proof fn lemma_prefixed_text(origin: char, rest: Seq<SpanView>)
    ensures
        spans_text(seq![prefix_span(origin)] + rest) == seq![origin, ' '] + spans_text(rest),
{
    let lead = seq![prefix_span(origin)];
    lemma_spans_text_concat(lead, rest);
    assert(spans_text(lead.drop_last()) =~= Seq::<char>::empty());
    assert(spans_text(lead) =~= seq![origin, ' ']);
}

/// A pair spells its two lines: the old line reads `- ` and then the code
/// of the removed line, the new line `+ ` and then the code of the added
/// line, whatever the alignment.
pub proof fn lemma_pair_spells_its_lines(
    old_out: LineView,
    new_out: LineView,
    old_code: Seq<char>,
    new_code: Seq<char>,
)
    requires
        drawn_as_pair(old_out, new_out, old_code, new_code),
    ensures
        spans_text(old_out) == seq!['-', ' '] + old_code,
        spans_text(new_out) == seq!['+', ' '] + new_code,
{
    let changes = choose|changes: Seq<WordChangeView>|
        #![auto]
        aligns(changes, old_code, new_code) && old_out == seq![prefix_span('-')] + old_side(
            changes,
        ) && new_out == seq![prefix_span('+')] + new_side(changes);
    lemma_sides_show_the_pieces(changes);
    lemma_prefixed_text('-', old_side(changes));
    lemma_prefixed_text('+', new_side(changes));
}

/// A line drawn alone reads its origin, a blank, and then its code or a
/// part of its code that starts at its beginning.
pub proof fn lemma_lone_line_spells_its_code(out: LineView, line: DiffLineView)
    requires
        drawn_alone(out, line),
    ensures
        exists|shown: Seq<char>|
            #![auto]
            shown.is_prefix_of(code_text(line.content)) && spans_text(out) == seq![line.origin, ' ']
                + shown,
{
    let rest = out.subrange(1, out.len() as int);
    lemma_colored_spans_spell_code(rest, code_text(line.content));
    assert(out =~= seq![prefix_span(line.origin)] + rest);
    lemma_prefixed_text(line.origin, rest);
    assert(spans_text(rest).is_prefix_of(code_text(line.content)));
}

/// The text of the spans of some tokens is the text of the tokens.
pub proof fn lemma_token_spans_text(tokens: Seq<SyntaxToken>)
    ensures
        spans_text(Seq::new(tokens.len(), |i: int| token_span(tokens[i]))) == tokens_text(tokens),
    decreases tokens.len(),
{
    let spans = Seq::new(tokens.len(), |i: int| token_span(tokens[i]));
    if tokens.len() > 0 {
        let fewer = tokens.drop_last();
        lemma_token_spans_text(fewer);
        assert(spans.drop_last() =~= Seq::new(fewer.len(), |i: int| token_span(fewer[i])));
    }
}

/// Syntax colouring shows nothing that the code does not hold: whatever the
/// tokenizer made of a line, there is at least one span, and the spans
/// together spell the code or a part of it that starts at its beginning.
pub proof fn lemma_colored_spans_spell_code(spans: Seq<SpanView>, code: Seq<char>)
    requires
        syntax_colored(spans, code),
    ensures
        spans.len() > 0,
        spans_text(spans).is_prefix_of(code),
{
    let tokens = choose|tokens: Option<Seq<SyntaxToken>>|
        #![auto]
        tokens_fit(code, tokens) && spans == base_spans(code, tokens);
    let whole = seq![SpanView { text: code, style: SpanStyle::spec_plain() }];
    assert(spans_text(whole) =~= code) by {
        assert(spans_text(whole.drop_last()) =~= Seq::<char>::empty());
    }
    match tokens {
        Some(t) => {
            if t.len() > 0 {
                lemma_token_spans_text(t);
            }
        },
        None => {},
    }
}

} // verus!
