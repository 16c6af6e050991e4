//! Syntax definitions, themes and the line tokenizer, as the `syntect` crate
//! provides them.
//!
//! Verus does not look inside that crate. What this module states about it is
//! taken on trust; each item says what it relies on. Of what a set holds only
//! the names and file extensions are spoken of; the definitions and themes
//! themselves stay opaque. The module pairs every
//! syntax with the set it was found in and every tokenizer with the set of its
//! syntax, and keeps those pairs private, so a tokenizer never meets a set
//! other than its own.

use vstd::prelude::*;

verus! {

/// `syntect`'s set of syntax definitions. Opaque here.
#[verifier::external_type_specification]
#[verifier::external_body]
pub struct ExSyntaxSet(syntect::parsing::SyntaxSet);

/// `syntect`'s handle on one syntax definition of a set. Opaque here.
#[verifier::external_type_specification]
#[verifier::external_body]
pub struct ExSyntaxReference(syntect::parsing::SyntaxReference);

/// `syntect`'s set of colour themes. Opaque here.
#[verifier::external_type_specification]
#[verifier::external_body]
pub struct ExThemeSet(syntect::highlighting::ThemeSet);

/// `syntect`'s colour theme. Opaque here.
#[verifier::external_type_specification]
#[verifier::external_body]
pub struct ExTheme(syntect::highlighting::Theme);

/// `syntect`'s line-by-line highlighter, which carries the parse state from
/// one line to the next. Opaque here.
#[verifier::external_type_specification]
#[verifier::external_body]
pub struct ExHighlightLines<'a>(syntect::easy::HighlightLines<'a>);

/// The names under which a theme set holds its themes, in the order in which
/// the set walks them: the keys of the public map `ThemeSet::themes`.
pub uninterp spec fn theme_names(themes: syntect::highlighting::ThemeSet) -> Seq<Seq<char>>;

/// The names of the syntax definitions of a set, one for each definition:
/// the field `SyntaxReference::name` of each.
pub uninterp spec fn syntax_names(syntaxes: syntect::parsing::SyntaxSet) -> Seq<Seq<char>>;

/// The file extensions that the syntax definitions of a set are registered
/// for, those of all definitions in one list: the entries of the field
/// `SyntaxReference::file_extensions` of each.
pub uninterp spec fn syntax_extensions(syntaxes: syntect::parsing::SyntaxSet) -> Seq<Seq<char>>;

/// The name of the syntax for plain text, which stands in where an
/// extension is unknown.
pub open spec fn plain_text_name() -> Seq<char> {
    seq!['P', 'l', 'a', 'i', 'n', ' ', 'T', 'e', 'x', 't']
}

/// The name of the theme that is used where it is there.
pub open spec fn preferred_theme_name() -> Seq<char> {
    seq!['b', 'a', 's', 'e', '1', '6', '-', 'o', 'c', 'e', 'a', 'n', '.', 'd', 'a', 'r', 'k']
}

/// `c` with an ASCII capital letter turned into its small letter, and any
/// other character left as it is.
pub open spec fn ascii_lowered(c: char) -> char {
    if 0x41 <= c as u32 <= 0x5A {
        ((c as u32) + 32) as char
    } else {
        c
    }
}

/// Whether two texts are the same apart from the case of their ASCII
/// letters.
pub open spec fn same_but_for_ascii_case(a: Seq<char>, b: Seq<char>) -> bool {
    &&& a.len() == b.len()
    &&& forall|i: int| 0 <= i < a.len() ==> ascii_lowered(#[trigger] a[i]) == ascii_lowered(b[i])
}

/// Whether `wanted` is among `extensions`, the case of ASCII letters left
/// aside.
pub open spec fn extension_listed(extensions: Seq<Seq<char>>, wanted: Seq<char>) -> bool {
    exists|i: int|
        0 <= i < extensions.len() && same_but_for_ascii_case(#[trigger] extensions[i], wanted)
}

/// A colour with an alpha component, as a theme gives it.
#[derive(Debug, Clone, Copy, PartialEq, Eq)]
pub struct Rgba {
    pub r: u8,
    pub g: u8,
    pub b: u8,
    pub a: u8,
}

/// One piece of a tokenized line with the style the theme gives it.
#[derive(Debug, Clone, PartialEq, Eq)]
pub struct SyntaxToken {
    pub foreground: Rgba,
    pub background: Rgba,
    /// Font style bits: 1 for bold, 2 for underline, 4 for italic.
    pub font_style: u8,
    pub text: String,
}

/// The text that a sequence of tokens covers.
pub open spec fn tokens_text(tokens: Seq<SyntaxToken>) -> Seq<char>
    decreases tokens.len(),
{
    if tokens.len() == 0 {
        Seq::empty()
    } else {
        tokens_text(tokens.drop_last()) + tokens.last().text@
    }
}

/// A syntax definition together with the set it belongs to.
pub(crate) struct SyntaxChoice<'a> {
    syntaxes: &'a syntect::parsing::SyntaxSet,
    syntax: &'a syntect::parsing::SyntaxReference,
}

/// A tokenizer for the lines of one block of text, top to bottom.
pub(crate) struct LineHighlighter<'a> {
    lines: syntect::easy::HighlightLines<'a>,
    syntaxes: &'a syntect::parsing::SyntaxSet,
}

/// The syntax definitions that `syntect` ships, in the form that expects
/// lines to end in a newline. Calls `SyntaxSet::load_defaults_newlines`.
///
/// Relied on: the set holds the syntax named `Plain Text`. The crate's
/// documentation says that this syntax should always be present and uses
/// it as the fallback for this very set.
#[verifier::external_body]
pub(crate) fn default_syntaxes() -> (r: syntect::parsing::SyntaxSet)
    ensures
        syntax_names(r).contains(plain_text_name()),
{
    syntect::parsing::SyntaxSet::load_defaults_newlines()
}

/// The themes that `syntect` ships. Calls `ThemeSet::load_defaults`.
///
/// Relied on: `base16-ocean.dark` is one of the keys of the set's map. The
/// crate's documentation lists the keys, this one first.
#[verifier::external_body]
pub(crate) fn default_themes() -> (r: syntect::highlighting::ThemeSet)
    ensures
        theme_names(r).contains(preferred_theme_name()),
{
    syntect::highlighting::ThemeSet::load_defaults()
}

/// The theme stored under `name`, if any. Reads the public map
/// `ThemeSet::themes` with `BTreeMap::get`.
///
/// Relied on: there is a result exactly if `name` is one of the map's keys.
#[verifier::external_body]
pub(crate) fn theme_named<'a>(
    themes: &'a syntect::highlighting::ThemeSet,
    name: &str,
) -> (r: Option<&'a syntect::highlighting::Theme>)
    ensures
        r is Some <==> theme_names(*themes).contains(name@),
{
    themes.themes.get(name)
}

/// The first theme of the set in the order of their names, if it has any.
/// Reads the public map `ThemeSet::themes` with `BTreeMap::values`.
///
/// Relied on: there is a result exactly if the map is not empty.
#[verifier::external_body]
pub(crate) fn first_theme<'a>(
    themes: &'a syntect::highlighting::ThemeSet,
) -> (r: Option<&'a syntect::highlighting::Theme>)
    ensures
        r is Some <==> theme_names(*themes).len() > 0,
{
    themes.themes.values().next()
}

/// The syntax registered for a file extension, if any. Calls
/// `SyntaxSet::find_syntax_by_extension` and keeps the set beside what it
/// found.
///
/// Relied on: there is a result exactly if some definition of the set lists
/// an extension that is the given one apart from the case of ASCII letters.
#[verifier::external_body]
pub(crate) fn syntax_for_extension<'a>(
    syntaxes: &'a syntect::parsing::SyntaxSet,
    extension: &str,
) -> (r: Option<SyntaxChoice<'a>>)
    ensures
        r is Some <==> extension_listed(syntax_extensions(*syntaxes), extension@),
{
    syntaxes.find_syntax_by_extension(extension).map(|syntax| SyntaxChoice { syntaxes, syntax })
}

/// The syntax of the given name, if any. Calls
/// `SyntaxSet::find_syntax_by_name` and keeps the set beside what it found.
///
/// Relied on: there is a result exactly if some definition of the set has
/// that very name.
#[verifier::external_body]
pub(crate) fn syntax_named<'a>(
    syntaxes: &'a syntect::parsing::SyntaxSet,
    name: &str,
) -> (r: Option<SyntaxChoice<'a>>)
    ensures
        r is Some <==> syntax_names(*syntaxes).contains(name@),
{
    syntaxes.find_syntax_by_name(name).map(|syntax| SyntaxChoice { syntaxes, syntax })
}

/// A tokenizer at the start of a block. Calls `HighlightLines::new` with the
/// chosen syntax and keeps that syntax's set beside it; nothing is claimed of
/// the result.
#[verifier::external_body]
pub(crate) fn start_highlighter<'a>(
    choice: &SyntaxChoice<'a>,
    theme: &'a syntect::highlighting::Theme,
) -> LineHighlighter<'a> {
    LineHighlighter {
        lines: syntect::easy::HighlightLines::new(choice.syntax, theme),
        syntaxes: choice.syntaxes,
    }
}

/// Tokenizes the next line of the block. Calls
/// `HighlightLines::highlight_line` with the set the tokenizer was made for;
/// `None` stands for its error.
///
/// Relied on: the pieces it yields are consecutive slices of the line that
/// start at its beginning, and none of them is empty. They need not reach
/// the end of the line.
#[verifier::external_body]
pub(crate) fn next_line(
    highlighter: &mut LineHighlighter<'_>,
    code: &str,
) -> (r: Option<Vec<SyntaxToken>>)
    ensures
        r matches Some(tokens) ==> tokens_text(tokens@).is_prefix_of(code@),
        r matches Some(tokens) ==> forall|i: int|
            0 <= i < tokens.len() ==> (#[trigger] tokens[i]).text@.len() > 0,
{
    let pieces = highlighter.lines.highlight_line(code, highlighter.syntaxes).ok()?;
    let token = |(style, text): (syntect::highlighting::Style, &str)| {
        let (fg, bg) = (style.foreground, style.background);
        SyntaxToken {
            foreground: Rgba { r: fg.r, g: fg.g, b: fg.b, a: fg.a },
            background: Rgba { r: bg.r, g: bg.g, b: bg.b, a: bg.a },
            font_style: style.font_style.bits(),
            text: text.to_owned(),
        }
    };
    Some(pieces.into_iter().map(token).collect())
}

} // verus!
