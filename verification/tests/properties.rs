use decomment::process;
use decomment::strip_comments;

#[test]
fn empty_input_gives_empty_output() {
    assert_eq!(&strip_comments(""), "");
    assert_eq!(&process(""), "");
}

#[test]
fn unterminated_double_quote_literal_is_preserved_to_eof() {
    let inp = "\"abc // not a comment /* nor this";
    assert_eq!(&strip_comments(inp), inp);
}

#[test]
fn unterminated_raw_literal_is_preserved_to_eof() {
    let inp = "r#\"abc // not a comment \" still open";
    assert_eq!(&strip_comments(inp), inp);
}

#[test]
fn escape_as_last_character_is_preserved() {
    let inp = "\"a\\";
    assert_eq!(&strip_comments(inp), inp);
}

#[test]
fn escaped_terminator_keeps_literal_open() {
    let inp = "\"a\\\" // still inside the literal";
    assert_eq!(&strip_comments(inp), inp);
}

#[test]
fn even_backslashes_close_single_quoted_literal() {
    let inp = "'\\\\'//comment";
    let expected = "'\\\\'";
    assert_eq!(&strip_comments(inp), expected);
}

#[test]
fn line_comment_at_offset_zero_keeps_its_terminator() {
    let inp = "//x\ncode";
    assert_eq!(&strip_comments(inp), "\ncode");
}

#[test]
fn block_comment_at_offset_zero_is_dropped() {
    let inp = "/*x*/code";
    assert_eq!(&strip_comments(inp), "code");
}

#[test]
fn comment_only_line_after_windows_terminator_is_elided() {
    let inp = "a\r\n //x";
    assert_eq!(&strip_comments(inp), "a");
}

#[test]
fn comment_after_code_keeps_preceding_blanks() {
    let inp = "a  //x";
    assert_eq!(&strip_comments(inp), "a  ");
}

#[test]
fn multibyte_characters_around_comment_stay_adjacent() {
    let inp = "\u{e9}/*x*/\u{fc}";
    assert_eq!(&strip_comments(inp), "\u{e9}\u{fc}");
}

#[test]
fn block_comment_does_not_nest() {
    let inp = "a/* /* */b";
    assert_eq!(&strip_comments(inp), "ab");
}

#[test]
fn block_comment_between_code_is_removed() {
    let inp = "a/*b*/c";
    assert_eq!(&strip_comments(inp), "ac");
}

#[test]
fn lone_slash_is_not_a_comment() {
    let inp = "a / b";
    assert_eq!(&strip_comments(inp), inp);
}

#[test]
fn closing_marker_inside_line_comment_is_ignored() {
    let inp = "code// */ still\nnext";
    assert_eq!(&strip_comments(inp), "code\nnext");
}

#[test]
fn empty_single_quoted_literal_closes_at_once() {
    let inp = "''//x";
    assert_eq!(&strip_comments(inp), "''");
}

#[test]
fn process_elides_comment_only_lines() {
    let inp = "a\n\t //c\nb";
    assert_eq!(&process(inp), "a\nb");
}

#[test]
fn process_keeps_terminator_of_comment_at_offset_zero() {
    let inp = "//c\nx";
    assert_eq!(&process(inp), "\nx");
}

#[test]
fn process_does_not_recognize_raw_literals() {
    let inp = "r#\"a\"#//x";
    assert_eq!(&process(inp), "r#\"a\"#");
}
