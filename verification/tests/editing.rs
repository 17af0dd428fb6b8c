use argon::editing::{auto_close, insert_newline, insert_tab};

fn bytes(s: &str) -> Vec<u8> {
    s.as_bytes().to_vec()
}

#[test]
fn brace_typed_in_empty_buffer() {
    // typing '{' at position 0 of "": the rule sees "{" with the cursor at 1
    let (text, cursor) = auto_close(&bytes("{"), 1).unwrap();
    assert_eq!(text, bytes("{\n\n}"));
    assert_eq!(cursor, 2);
}

#[test]
fn brace_typed_mid_text() {
    // typing '{' at position 1 of "ab": the rule sees "a{b" with the cursor at 2
    let (text, cursor) = auto_close(&bytes("a{b"), 2).unwrap();
    assert_eq!(text, bytes("a{\n\n}b"));
    assert_eq!(cursor, 3);
}

#[test]
fn paren_typed() {
    let (text, cursor) = auto_close(&bytes("a(b"), 2).unwrap();
    assert_eq!(text, bytes("a()b"));
    assert_eq!(cursor, 2);
}

#[test]
fn bracket_typed() {
    let (text, cursor) = auto_close(&bytes("x[y"), 2).unwrap();
    assert_eq!(text, bytes("x[]y"));
    assert_eq!(cursor, 2);
}

#[test]
fn double_quote_typed() {
    let (text, cursor) = auto_close(&bytes("\""), 1).unwrap();
    assert_eq!(text, bytes("\"\""));
    assert_eq!(cursor, 1);
}

#[test]
fn single_quote_typed() {
    let (text, cursor) = auto_close(&bytes("it'"), 3).unwrap();
    assert_eq!(text, bytes("it''"));
    assert_eq!(cursor, 3);
}

#[test]
fn ordinary_character_leaves_buffer_alone() {
    assert!(auto_close(&bytes("ax"), 2).is_none());
}

#[test]
fn closing_brace_leaves_buffer_alone() {
    assert!(auto_close(&bytes("}"), 1).is_none());
}

#[test]
fn cursor_at_start_leaves_buffer_alone() {
    assert!(auto_close(&bytes("abc"), 0).is_none());
}

#[test]
fn tab_with_empty_selection() {
    let (text, cursor) = insert_tab(&bytes("abc"), 1, 1);
    assert_eq!(text, bytes("a    bc"));
    assert_eq!(cursor, 5);
}

#[test]
fn tab_replaces_selection() {
    let (text, cursor) = insert_tab(&bytes("abcdef"), 1, 4);
    assert_eq!(text, bytes("a    ef"));
    assert_eq!(cursor, 5);
}

#[test]
fn tab_over_whole_buffer() {
    let (text, cursor) = insert_tab(&bytes("abc"), 0, 3);
    assert_eq!(text, bytes("    "));
    assert_eq!(cursor, 4);
}

#[test]
fn enter_extends_indent_after_brace() {
    let line = "    foo {";
    let (text, cursor) = insert_newline(&bytes(line), line.len());
    assert_eq!(text, bytes("    foo {\n        "));
    assert_eq!(cursor, 18);
}

#[test]
fn enter_preserves_indent() {
    let line = "    foo";
    let (text, cursor) = insert_newline(&bytes(line), line.len());
    assert_eq!(text, bytes("    foo\n    "));
    assert_eq!(cursor, 12);
}

#[test]
fn enter_in_empty_buffer() {
    let (text, cursor) = insert_newline(&bytes(""), 0);
    assert_eq!(text, bytes("\n"));
    assert_eq!(cursor, 1);
}

#[test]
fn enter_uses_current_line_only() {
    // the indent of the line before the cursor's line does not leak through
    let doc = "none\n  cd";
    let (text, cursor) = insert_newline(&bytes(doc), doc.len());
    assert_eq!(text, bytes("none\n  cd\n  "));
    assert_eq!(cursor, 12);
}

#[test]
fn enter_mid_line_splits_it() {
    // "  abcd" with the cursor between b and c
    let (text, cursor) = insert_newline(&bytes("  abcd"), 4);
    assert_eq!(text, bytes("  ab\n  cd"));
    assert_eq!(cursor, 7);
}

#[test]
fn enter_on_line_of_spaces_only() {
    let (text, cursor) = insert_newline(&bytes("   "), 3);
    assert_eq!(text, bytes("   \n   "));
    assert_eq!(cursor, 7);
}

#[test]
fn enter_sees_brace_through_trailing_spaces() {
    let (text, cursor) = insert_newline(&bytes("{  "), 3);
    assert_eq!(text, bytes("{  \n    "));
    assert_eq!(cursor, 8);
}

#[test]
fn enter_carries_tab_indent() {
    let (text, cursor) = insert_newline(&bytes("\tx{"), 3);
    assert_eq!(text, bytes("\tx{\n\t    "));
    assert_eq!(cursor, 9);
}

#[test]
fn enter_ignores_text_after_cursor() {
    // cursor right after the newline: the new line is empty, so no indent
    let (text, cursor) = insert_newline(&bytes("    a\nb"), 6);
    assert_eq!(text, bytes("    a\n\nb"));
    assert_eq!(cursor, 7);
}
