use airev::git::style::{Color, SpanStyle, StyledSpan};
use airev::git::words::{span_of_change, spans_of_changes, word_diff_spans, ChangeKind, WordChange};

fn change(kind: ChangeKind, emphasized: bool, text: &str) -> WordChange {
    WordChange { kind, emphasized, text: text.to_string() }
}

fn span(text: &str, color: Color, bold: bool) -> StyledSpan {
    StyledSpan {
        text: text.to_string(),
        style: SpanStyle { fg: Some(color), bg: None, bold, italic: false, underlined: false },
    }
}

#[test]
fn pieces_are_dealt_to_their_sides() {
    let (old, new) = spans_of_changes(&vec![
        change(ChangeKind::Equal, false, "let "),
        change(ChangeKind::Delete, true, "x"),
        change(ChangeKind::Insert, true, "y"),
        change(ChangeKind::Equal, true, " = "),
        change(ChangeKind::Delete, false, "1"),
        change(ChangeKind::Insert, false, "2"),
    ]);
    assert_eq!(
        old,
        vec![
            span("let ", Color::DarkGray, false),
            span("x", Color::Red, true),
            span(" = ", Color::DarkGray, false),
            span("1", Color::Red, false),
        ]
    );
    assert_eq!(
        new,
        vec![
            span("let ", Color::DarkGray, false),
            span("y", Color::Green, true),
            span(" = ", Color::DarkGray, false),
            span("2", Color::Green, false),
        ]
    );
}

#[test]
fn no_pieces_no_spans() {
    let (old, new) = spans_of_changes(&Vec::new());
    assert!(old.is_empty());
    assert!(new.is_empty());
}

#[test]
fn one_span_per_piece() {
    assert_eq!(span_of_change(&change(ChangeKind::Delete, false, "a")), span("a", Color::Red, false));
    assert_eq!(span_of_change(&change(ChangeKind::Delete, true, "a")), span("a", Color::Red, true));
    assert_eq!(span_of_change(&change(ChangeKind::Insert, false, "a")), span("a", Color::Green, false));
    assert_eq!(span_of_change(&change(ChangeKind::Insert, true, "a")), span("a", Color::Green, true));
    assert_eq!(span_of_change(&change(ChangeKind::Equal, false, "a")), span("a", Color::DarkGray, false));
    assert_eq!(span_of_change(&change(ChangeKind::Equal, true, "a")), span("a", Color::DarkGray, false));
}

#[test]
fn unrelated_words_are_replaced_whole() {
    let (old, new) = word_diff_spans("foo", "bar");
    assert_eq!(old, vec![span("foo", Color::Red, false)]);
    assert_eq!(new, vec![span("bar", Color::Green, false)]);
}

#[test]
fn equal_lines_are_muted_on_both_sides() {
    let (old, new) = word_diff_spans("same words", "same words");
    let text = |spans: &Vec<StyledSpan>| -> String { spans.iter().map(|s| s.text.as_str()).collect() };
    assert_eq!(text(&old), "same words");
    assert_eq!(text(&new), "same words");
    assert!(old.iter().all(|s| s.style.fg == Some(Color::DarkGray) && !s.style.bold));
    assert_eq!(old, new);
}

#[test]
fn each_side_spells_its_line() {
    let (old, new) = word_diff_spans("let x = compute(1);", "let y = compute(2, 3);");
    let text = |spans: &Vec<StyledSpan>| -> String { spans.iter().map(|s| s.text.as_str()).collect() };
    assert_eq!(text(&old), "let x = compute(1);");
    assert_eq!(text(&new), "let y = compute(2, 3);");
    assert!(old.iter().all(|s| s.style.fg != Some(Color::Green)));
    assert!(new.iter().all(|s| s.style.fg != Some(Color::Red)));
    assert!(old.iter().any(|s| s.style.fg == Some(Color::DarkGray)));
}

#[test]
fn empty_lines_align_to_nothing() {
    let (old, new) = word_diff_spans("", "");
    assert!(old.is_empty());
    assert!(new.is_empty());
}

#[test]
fn both_sides_spell_their_lines_whatever_the_lines() {
    let lines = [
        "",
        " ",
        "a",
        "foo",
        "foo bar",
        "  leading and trailing  ",
        "let x = compute(1);",
        "let  x =\tcompute(1, 2);",
        "größe über alles",
        "日本語 テキスト",
        "tabs\tand\nnewlines\n",
        "fn main() { println!(\"hi\"); }",
        "fn main() { println!(\"hello\"); }",
        "a b c d e f g h i j k l m n o p",
        "a b c d e x g h i j k l m n o p",
    ];
    let text = |spans: &Vec<StyledSpan>| -> String { spans.iter().map(|s| s.text.as_str()).collect() };
    for old in lines {
        for new in lines {
            let (old_spans, new_spans) = word_diff_spans(old, new);
            assert_eq!(text(&old_spans), old);
            assert_eq!(text(&new_spans), new);
        }
    }
}
