//! Text helpers of the pipeline: what part of a diff line is code, how a hunk
//! header is trimmed, and which extension a path has.

use vstd::prelude::*;
use vstd::string::*;

verus! {

/// Whether `c` is one of the origin markers that may lead a diff line.
pub open spec fn is_marker(c: char) -> bool {
    c == '+' || c == '-' || c == ' '
}

/// `s` without its leading origin marker, if it has one.
pub open spec fn without_marker(s: Seq<char>) -> Seq<char> {
    if s.len() > 0 && is_marker(s[0]) {
        s.subrange(1, s.len() as int)
    } else {
        s
    }
}

/// `s` without its final newline, if it ends in one. Only one is removed.
pub open spec fn without_newline(s: Seq<char>) -> Seq<char> {
    if s.len() > 0 && s.last() == '\n' {
        s.drop_last()
    } else {
        s
    }
}

/// The code of a diff line: its content without a leading origin marker and
/// without one trailing newline.
pub open spec fn code_text(content: Seq<char>) -> Seq<char> {
    without_newline(without_marker(content))
}

/// `s` without the longest suffix whose characters all satisfy `drop`.
pub open spec fn trimmed_end(s: Seq<char>, drop: spec_fn(char) -> bool) -> Seq<char>
    decreases s.len(),
{
    if s.len() > 0 && drop(s.last()) {
        trimmed_end(s.drop_last(), drop)
    } else {
        s
    }
}

/// `s` without any of its trailing newlines.
pub open spec fn without_trailing_newlines(s: Seq<char>) -> Seq<char> {
    trimmed_end(s, |c: char| c == '\n')
}

/// Whether `c` is white space: a character with the Unicode property
/// `White_Space`.
pub open spec fn is_white_space(c: char) -> bool {
    let n = c as u32;
    ||| 0x09 <= n <= 0x0D
    ||| n == 0x20
    ||| n == 0x85
    ||| n == 0xA0
    ||| n == 0x1680
    ||| 0x2000 <= n <= 0x200A
    ||| n == 0x2028
    ||| n == 0x2029
    ||| n == 0x202F
    ||| n == 0x205F
    ||| n == 0x3000
}

/// `s` without its trailing white space.
pub open spec fn without_trailing_space(s: Seq<char>) -> Seq<char> {
    trimmed_end(s, |c: char| is_white_space(c))
}

/// Index of the last `'.'` in `s`, or `-1` if there is none.
pub open spec fn last_dot(s: Seq<char>) -> int
    decreases s.len(),
{
    if s.len() == 0 {
        -1
    } else if s.last() == '.' {
        s.len() - 1
    } else {
        last_dot(s.drop_last())
    }
}

/// The extension that stands for a path without one.
pub open spec fn default_extension() -> Seq<char> {
    seq!['t', 'x', 't']
}

/// The extension of a path: what follows its last `'.'`, or `txt` if it has
/// none.
pub open spec fn extension_of(path: Seq<char>) -> Seq<char> {
    if last_dot(path) < 0 {
        default_extension()
    } else {
        path.subrange(last_dot(path) + 1, path.len() as int)
    }
}

/// A suffix free of `drop` characters is kept by `trimmed_end`, and only the
/// part before it is trimmed further.
pub proof fn lemma_trimmed_end_is(s: Seq<char>, drop: spec_fn(char) -> bool, keep: int)
    requires
        0 <= keep <= s.len(),
        forall|j: int| keep <= j < s.len() ==> drop(#[trigger] s[j]),
        keep == 0 || !drop(s[keep - 1]),
    ensures
        trimmed_end(s, drop) == s.subrange(0, keep),
    decreases s.len(),
{
    if s.len() > 0 && drop(s.last()) {
        lemma_trimmed_end_is(s.drop_last(), drop, keep);
    }
}

/// The last dot of `s` is at `dot` when `s` has a dot there and none after it;
/// it is `-1` when `s` has none at all.
pub proof fn lemma_last_dot_is(s: Seq<char>, dot: int)
    requires
        -1 <= dot < s.len(),
        forall|j: int| dot < j < s.len() ==> #[trigger] s[j] != '.',
        dot >= 0 ==> s[dot] == '.',
    ensures
        last_dot(s) == dot,
    decreases s.len(),
{
    if s.len() > 0 && s.last() != '.' {
        lemma_last_dot_is(s.drop_last(), dot);
    }
}

/// The extension of a path holds no dot, and is either the default
/// extension or what follows a dot.
pub proof fn lemma_extension_of(path: Seq<char>)
    ensures
        !extension_of(path).contains('.'),
        last_dot(path) == -1 ==> extension_of(path) == default_extension(),
        last_dot(path) >= 0 ==> path[last_dot(path)] == '.',
        -1 <= last_dot(path) < path.len(),
{
    lemma_last_dot_bounds(path);
}

/// Where the last dot lies, and that nothing after it is a dot.
pub proof fn lemma_last_dot_bounds(s: Seq<char>)
    ensures
        -1 <= last_dot(s) < s.len(),
        last_dot(s) >= 0 ==> s[last_dot(s)] == '.',
        forall|j: int| last_dot(s) < j < s.len() ==> #[trigger] s[j] != '.',
    decreases s.len(),
{
    if s.len() > 0 && s.last() != '.' {
        let t = s.drop_last();
        lemma_last_dot_bounds(t);
        assert forall|j: int| last_dot(s) < j < s.len() implies #[trigger] s[j] != '.' by {
            if j < t.len() {
                assert(t[j] == s[j]);
            }
        }
    }
}

/// `String::push` appends one character to the end of the string.
pub assume_specification[ String::push ](s: &mut String, c: char)
    ensures
        final(s)@ == old(s)@.push(c),
;

/// Whether `c` is white space.
pub fn is_whitespace(c: char) -> (r: bool)
    ensures
        r == is_white_space(c),
{
    let n: u32 = c as u32;
    (0x09 <= n && n <= 0x0D) || n == 0x20 || n == 0x85 || n == 0xA0 || n == 0x1680 || (0x2000 <= n
        && n <= 0x200A) || n == 0x2028 || n == 0x2029 || n == 0x202F || n == 0x205F || n == 0x3000
}

/// The code of a diff line: `content` without a leading `'+'`, `'-'` or
/// `' '` and without one trailing newline.
pub fn line_code(content: &str) -> (r: &str)
    ensures
        r@ == code_text(content@),
{
    let n: usize = content.unicode_len();
    let mut from: usize = 0;
    if n > 0 {
        let first: char = content.get_char(0);
        if first == '+' || first == '-' || first == ' ' {
            from = 1;
        }
    }
    let mut to: usize = n;
    if to > from && content.get_char(to - 1) == '\n' {
        to = to - 1;
    }
    content.substring_char(from, to)
}

/// `s` without any of its trailing newlines.
pub fn trim_newlines(s: &str) -> (r: &str)
    ensures
        r@ == without_trailing_newlines(s@),
{
    let n: usize = s.unicode_len();
    let mut keep: usize = n;
    while keep > 0 && s.get_char(keep - 1) == '\n'
        invariant
            keep <= n,
            n == s@.len(),
            forall|j: int| keep <= j < n ==> #[trigger] s@[j] == '\n',
        decreases keep,
    {
        keep = keep - 1;
    }
    proof {
        lemma_trimmed_end_is(s@, |c: char| c == '\n', keep as int);
    }
    s.substring_char(0, keep)
}

/// `s` without its trailing white space.
pub fn trim_trailing_space(s: &str) -> (r: &str)
    ensures
        r@ == without_trailing_space(s@),
{
    let n: usize = s.unicode_len();
    let mut keep: usize = n;
    while keep > 0 && is_whitespace(s.get_char(keep - 1))
        invariant
            keep <= n,
            n == s@.len(),
            forall|j: int| keep <= j < n ==> is_white_space(#[trigger] s@[j]),
        decreases keep,
    {
        keep = keep - 1;
    }
    proof {
        lemma_trimmed_end_is(s@, |c: char| is_white_space(c), keep as int);
    }
    s.substring_char(0, keep)
}

/// The extension of a repository-relative path: what follows its last
/// `'.'`, or `txt` if it has none.
pub fn file_ext(path: &str) -> (r: &str)
    ensures
        r@ == extension_of(path@),
        !r@.contains('.'),
{
    let n: usize = path.unicode_len();
    let mut start: usize = n;
    while start > 0 && path.get_char(start - 1) != '.'
        invariant
            start <= n,
            n == path@.len(),
            forall|j: int| start <= j < n ==> #[trigger] path@[j] != '.',
        decreases start,
    {
        start = start - 1;
    }
    proof {
        lemma_last_dot_is(path@, start - 1);
        lemma_extension_of(path@);
    }
    if start == 0 {
        proof {
            reveal_strlit("txt");
            assert("txt"@ =~= default_extension());
        }
        "txt"
    } else {
        path.substring_char(start, n)
    }
}

} // verus!
