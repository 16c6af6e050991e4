use airev::git::text::{file_ext, is_whitespace, line_code, trim_newlines, trim_trailing_space};

#[test]
fn extension_follows_the_last_dot() {
    assert_eq!(file_ext("src/main.rs"), "rs");
    assert_eq!(file_ext("a.tar.gz"), "gz");
    assert_eq!(file_ext("trailing."), "");
    assert_eq!(file_ext(".gitignore"), "gitignore");
}

#[test]
fn path_without_a_dot_has_the_default_extension() {
    assert_eq!(file_ext("Makefile"), "txt");
    assert_eq!(file_ext(""), "txt");
    assert_eq!(file_ext("dir/file"), "txt");
    assert_eq!(file_ext("größe"), "txt");
}

#[test]
fn extension_may_span_a_directory() {
    assert_eq!(file_ext("dir.d/file"), "d/file");
}

#[test]
fn extension_of_a_path_beyond_ascii() {
    assert_eq!(file_ext("größe.rs"), "rs");
    assert_eq!(file_ext("a.größe"), "größe");
}

#[test]
fn code_drops_one_marker_and_one_newline() {
    assert_eq!(line_code("+foo\n"), "foo");
    assert_eq!(line_code("-foo\n"), "foo");
    assert_eq!(line_code(" foo\n"), "foo");
    assert_eq!(line_code("foo\n"), "foo");
    assert_eq!(line_code("foo"), "foo");
    assert_eq!(line_code("++x\n"), "+x");
    assert_eq!(line_code("x\n\n"), "x\n");
    assert_eq!(line_code(""), "");
    assert_eq!(line_code("+"), "");
    assert_eq!(line_code("\n"), "");
    assert_eq!(line_code("+\n"), "");
    assert_eq!(line_code("  two\n"), " two");
    assert_eq!(line_code("héllo wörld\n"), "héllo wörld");
}

#[test]
fn all_trailing_newlines_go() {
    assert_eq!(trim_newlines("x\n\n"), "x");
    assert_eq!(trim_newlines("x"), "x");
    assert_eq!(trim_newlines("\n"), "");
    assert_eq!(trim_newlines(""), "");
    assert_eq!(trim_newlines("a\nb\n"), "a\nb");
    assert_eq!(trim_newlines("x \n"), "x ");
}

#[test]
fn trailing_white_space_goes() {
    assert_eq!(trim_trailing_space("@@ -1 +1 @@ fn main() \n"), "@@ -1 +1 @@ fn main()");
    assert_eq!(trim_trailing_space("  x\t \r\n"), "  x");
    assert_eq!(trim_trailing_space("x\u{00A0}\u{3000}"), "x");
    assert_eq!(trim_trailing_space(" \n "), "");
    assert_eq!(trim_trailing_space(""), "");
    assert_eq!(trim_trailing_space("x"), "x");
}

#[test]
fn white_space_is_what_the_standard_library_says() {
    let mut n: u32 = 0;
    while n <= 0x10FFFF {
        if let Some(c) = char::from_u32(n) {
            assert_eq!(is_whitespace(c), c.is_whitespace());
        }
        n += 1;
    }
}

#[test]
fn trimming_agrees_with_the_standard_library() {
    for s in ["", "a", "a \n", "\n\n", " a b \t", "x\u{2028}", "x\u{200B}", "é \u{0085}"] {
        assert_eq!(trim_trailing_space(s), s.trim_end());
        assert_eq!(trim_newlines(s), s.trim_end_matches('\n'));
    }
}
