//! A plainer comment-stripping scanner: it removes line and block comments
//! with the same retroactive trim as the full scanner — a line whose only
//! content was a comment disappears entirely — but it recognizes only plain
//! `'...'` and `"..."` literals, carrying the closing quote as the character
//! itself.

use vstd::prelude::*;

use crate::scanner::{remove_trailing_newline_and_whitespace, trim_for_comment};
use crate::text::{
    chars_to_string, escapes_literal_end, line_comment_start, line_comment_start_at,
    multiline_comment_end, multiline_comment_end_at, multiline_comment_start,
    multiline_comment_start_at, newline_at, starts_with_newline, to_chars,
};

verus! {

/// What this scanner is inside of at a given position.
#[derive(Clone, Copy)]
pub enum ParseState {
    /// Not inside any literal or comment.
    Base,
    /// Inside a `//` comment, skipping until the end of the line.
    LineComment,
    /// Inside a `/*` comment, skipping until the closing marker.
    MultiLineComment,
    /// Absorbs the second character of `*/` before returning to `Base`.
    EndingMultiLineComment,
    /// Inside a literal; the payload is the quote that will close it.
    StringLiteral(char),
    /// The character right after `\` inside a literal: it is consumed as
    /// content, whatever it is, and scanning returns to `StringLiteral`.
    StringLiteralEscaped(char),
}

/// One transition of this scanner: from the state and output before the
/// character at position `i` to the state and output after it.
pub open spec fn step(s: Seq<char>, i: int, st: ParseState, out: Seq<char>) -> (ParseState, Seq<
    char,
>)
    recommends
        0 <= i < s.len(),
{
    let ch = s[i];
    match st {
        ParseState::LineComment => {
            if newline_at(s, i) {
                (ParseState::Base, out.push(ch))
            } else {
                (ParseState::LineComment, out)
            }
        },
        ParseState::MultiLineComment => {
            if multiline_comment_end_at(s, i) {
                (ParseState::EndingMultiLineComment, out)
            } else {
                (ParseState::MultiLineComment, out)
            }
        },
        ParseState::EndingMultiLineComment => (ParseState::Base, out),
        ParseState::StringLiteral(q) => {
            if ch == q {
                (ParseState::Base, out.push(ch))
            } else if ch == '\\' {
                (ParseState::StringLiteralEscaped(q), out.push(ch))
            } else {
                (ParseState::StringLiteral(q), out.push(ch))
            }
        },
        ParseState::StringLiteralEscaped(q) => (ParseState::StringLiteral(q), out.push(ch)),
        ParseState::Base => {
            if ch == '"' || ch == '\'' {
                (ParseState::StringLiteral(ch), out.push(ch))
            } else if multiline_comment_start_at(s, i) {
                (ParseState::MultiLineComment, trim_for_comment(out))
            } else if line_comment_start_at(s, i) {
                (ParseState::LineComment, trim_for_comment(out))
            } else {
                (ParseState::Base, out.push(ch))
            }
        },
    }
}

/// The output of this scanner run from position `i` in state `st` with output
/// `out` already produced, to the end of the input.
pub open spec fn scan_from(s: Seq<char>, i: int, st: ParseState, out: Seq<char>) -> Seq<char>
    decreases s.len() - i,
{
    if i < 0 || i >= s.len() {
        out
    } else {
        scan_from(s, i + 1, step(s, i, st, out).0, step(s, i, st, out).1)
    }
}

/// The whole transformation: scan `s` from the start, in the base state, with
/// an empty output.
pub open spec fn processed(s: Seq<char>) -> Seq<char> {
    scan_from(s, 0, ParseState::Base, Seq::empty())
}

/// The character opens a plain literal: it is one of the two quotes.
pub(crate) fn starts_string_literal(ch: &char) -> (r: bool)
    ensures
        r == (*ch == '"' || *ch == '\''),
{
    *ch == '"' || *ch == '\''
}

/// Removes `//` and `/*...*/` comments from `inp`, leaving the contents of
/// `'...'` and `"..."` literals untouched. A line whose only content besides
/// whitespace was a comment disappears entirely, together with its line
/// terminator. The scan never fails: an unterminated comment or literal
/// simply runs to the end of the input.
pub fn process(inp: &str) -> (out: String)
    ensures
        out@ == processed(inp@),
{
    let chars = to_chars(inp);
    let n = chars.len();
    let mut output: Vec<char> = Vec::new();
    let mut parse_state = ParseState::Base;
    let mut i: usize = 0;
    while i < n
        invariant
            i <= n,
            n == chars@.len(),
            chars@ == inp@,
            scan_from(chars@, i as int, parse_state, output@) == processed(inp@),
        decreases n - i,
    {
        let ghost prev_state = parse_state;
        let ghost prev_out = output@;
        let ch = chars[i];
        match parse_state {
            ParseState::LineComment => {
                if starts_with_newline(&chars, i) {
                    parse_state = ParseState::Base;
                    output.push(ch);
                }
            },
            ParseState::MultiLineComment => {
                if multiline_comment_end(&chars, i) {
                    parse_state = ParseState::EndingMultiLineComment;
                }
            },
            ParseState::EndingMultiLineComment => {
                parse_state = ParseState::Base;
            },
            ParseState::StringLiteral(literal_end) => {
                if ch == literal_end {
                    parse_state = ParseState::Base;
                } else if escapes_literal_end(ch) {
                    parse_state = ParseState::StringLiteralEscaped(literal_end);
                }
                output.push(ch);
            },
            ParseState::StringLiteralEscaped(literal_end) => {
                parse_state = ParseState::StringLiteral(literal_end);
                output.push(ch);
            },
            ParseState::Base => {
                if starts_string_literal(&ch) {
                    parse_state = ParseState::StringLiteral(ch);
                    output.push(ch);
                } else if multiline_comment_start(&chars, i) {
                    remove_trailing_newline_and_whitespace(&mut output);
                    parse_state = ParseState::MultiLineComment;
                } else if line_comment_start(&chars, i) {
                    remove_trailing_newline_and_whitespace(&mut output);
                    parse_state = ParseState::LineComment;
                } else {
                    output.push(ch);
                }
            },
        }
        proof {
            assert((parse_state, output@) == step(chars@, i as int, prev_state, prev_out));
        }
        i = i + 1;
    }
    chars_to_string(&output)
}

} // verus!
