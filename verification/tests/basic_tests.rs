use decomment::process;

#[test]
fn main_it_does_not_strip_comments_inside_literals() {
    let inp = "I am code \"with a // funky /* literal */\"";
    assert_eq!(&process(inp), inp);
}

#[test]
fn main_it_supports_escaped_quotes_inside_literals() {
    let inp = r#"I am code " with \" an /* even */ funkier // literal " "#;
    assert_eq!(&process(inp), inp);
}

#[test]
fn main_it_supports_escaping_the_escape_character_inside_string_literals() {
    let inp = r#"I am code "with a literal \\"//and a comment"#;
    let expected = r#"I am code "with a literal \\""#;
    assert_eq!(&process(inp), expected);
}

#[test]
fn main_it_supports_single_and_double_quotes_and_they_dont_close_each_other() {
    let inp = r#"'single /* quote */ -> " <- // still literal '"#;
    assert_eq!(&process(inp), inp);
    let inp = r#""double /* quote */ -> ' <- // still literal ""#;
    assert_eq!(&process(inp), inp);
}

#[test]
fn main_string_literals_can_contain_newlines_and_unclosed_literals_run_till_eof() {
    let inp = "' <- all\n\n\n\r\nof // this /* is */ \ninside\n a literal";
    assert_eq!(&process(inp), inp);
}

#[test]
fn main_it_strips_line_comments() {
    let inp = "I am code! //And I am a comment! /* still */\n";
    let expected = "I am code! \n";
    assert_eq!(&process(inp), expected);

    let inp = "I am code! //And I am a comment! /* still */\nCode again //But not this\n";
    let expected = "I am code! \nCode again \n";
    assert_eq!(&process(inp), expected);
}

#[test]
fn main_it_strips_multiline_comments() {
    let inp = "I am code /* And I\n\r\n\n am not */ and I am too.";
    let expected = "I am code  and I am too.";
    assert_eq!(&process(inp), expected);
}

#[test]
fn main_it_handles_windows_newlines_and_leaves_them_intact() {
    let inp = "I am code\r\n//I am a comment\r\n";
    let expected = "I am code\r\n";
    assert_eq!(&process(inp), expected);
}

#[test]
fn main_unclosed_multiline_comments_will_strip_until_eof() {
    let inp = "code/*\n\n\nA lot of commentary\r\netc";
    let expected = "code";
    assert_eq!(&process(inp), expected);
}

#[test]
fn main_trailing_newline_is_optional_and_preserved() {
    let inp = "code//comment";
    let expected = "code";
    assert_eq!(&process(inp), expected);

    let inp = "code//comment\r\n";
    let expected = "code\r\n";
    assert_eq!(&process(inp), expected);
}

#[test]
fn main_it_handles_multibyte_characters() {
    let inp = "🌴🌴🌴/*🦎🦎🦎*/🌴🌴//🦎🦎🦎";
    let expected = "🌴🌴🌴🌴🌴";
    assert_eq!(&process(inp), expected);
}
