//! The full comment-stripping scanner: a single left-to-right pass that drops
//! line and block comments, keeps the contents of plain and raw quoted
//! literals, and removes a line entirely when a comment was its only content.

use vstd::prelude::*;

use crate::text::{
    blank, chars_to_string, escapes_literal_end, is_blank, line_comment_start,
    line_comment_start_at, multiline_comment_end, multiline_comment_end_at,
    multiline_comment_start, multiline_comment_start_at, newline_at, starts_with_newline, to_chars,
};

verus! {

/// The exact marker that closes the literal being scanned: `'`, `"`, or `"#`.
#[derive(Clone, Copy)]
pub enum Terminator {
    SingleQuote,
    DoubleQuote,
    QuoteHash,
}

/// What the scanner is inside of at a given position. The state is a pure
/// function of the characters consumed so far.
#[derive(Clone, Copy)]
pub enum ParseState {
    /// Not inside any literal or comment.
    Base,
    /// Inside a `//` comment, skipping until the end of the line.
    LineComment,
    /// Inside a `/*` comment, skipping until the closing marker.
    MultiLineComment,
    /// Absorbs the second character of `*/` before returning to `Base`.
    EndingMultiLineComment,
    /// Inside a literal; the payload names the marker that will close it.
    StringLiteral(Terminator),
    /// The character right after `\` inside a literal: it is consumed as
    /// content, whatever it is, and scanning returns to `StringLiteral`.
    StringLiteralEscaped(Terminator),
}

/// The closing marker of the literal begins at position `i`.
pub open spec fn terminator_at(s: Seq<char>, i: int, t: Terminator) -> bool {
    match t {
        Terminator::SingleQuote => 0 <= i < s.len() && s[i] == '\'',
        Terminator::DoubleQuote => 0 <= i < s.len() && s[i] == '"',
        Terminator::QuoteHash => 0 <= i && i + 2 <= s.len() && s[i] == '"' && s[i + 1] == '#',
    }
}

/// The literal opener at position `i`, if any: `'`, `"`, or `r#"`, each paired
/// with the marker that will close it. A quote opens only its own kind, so one
/// quote kind can never close the other.
pub open spec fn literal_opener_at(s: Seq<char>, i: int) -> Option<Terminator> {
    if 0 <= i < s.len() && s[i] == '\'' {
        Some(Terminator::SingleQuote)
    } else if 0 <= i < s.len() && s[i] == '"' {
        Some(Terminator::DoubleQuote)
    } else if 0 <= i && i + 3 <= s.len() && s[i] == 'r' && s[i + 1] == '#' && s[i + 2] == '"' {
        Some(Terminator::QuoteHash)
    } else {
        None
    }
}

/// `s` with any trailing run of non-terminator whitespace removed.
pub open spec fn drop_trailing_blanks(s: Seq<char>) -> Seq<char>
    decreases s.len(),
{
    if s.len() > 0 && is_blank(s[s.len() - 1]) {
        drop_trailing_blanks(s.drop_last())
    } else {
        s
    }
}

/// What the retroactive trim leaves of the output when a comment opens: if the
/// output ends in whitespace (other than line terminators) preceded by a line
/// terminator, that whitespace and the one terminator go away, and with them
/// the whole line the comment stood on; otherwise the comment follows real
/// code on its line and the output stays as it is.
pub open spec fn trim_for_comment(s: Seq<char>) -> Seq<char> {
    let t = drop_trailing_blanks(s);
    if t.len() >= 2 && t[t.len() - 2] == '\r' && t[t.len() - 1] == '\n' {
        t.take(t.len() - 2)
    } else if t.len() >= 1 && t[t.len() - 1] == '\n' {
        t.take(t.len() - 1)
    } else {
        s
    }
}

/// One transition of the scanner: from the state and output before the
/// character at position `i` to the state and output after it.
pub open spec fn step(s: Seq<char>, i: int, st: ParseState, out: Seq<char>) -> (ParseState, Seq<
    char,
>)
    recommends
        0 <= i < s.len(),
{
    let ch = s[i];
    match st {
        ParseState::LineComment => {
            if newline_at(s, i) {
                (ParseState::Base, out.push(ch))
            } else {
                (ParseState::LineComment, out)
            }
        },
        ParseState::MultiLineComment => {
            if multiline_comment_end_at(s, i) {
                (ParseState::EndingMultiLineComment, out)
            } else {
                (ParseState::MultiLineComment, out)
            }
        },
        ParseState::EndingMultiLineComment => (ParseState::Base, out),
        ParseState::StringLiteral(t) => {
            if terminator_at(s, i, t) {
                (ParseState::Base, out.push(ch))
            } else if ch == '\\' {
                (ParseState::StringLiteralEscaped(t), out.push(ch))
            } else {
                (ParseState::StringLiteral(t), out.push(ch))
            }
        },
        ParseState::StringLiteralEscaped(t) => (ParseState::StringLiteral(t), out.push(ch)),
        ParseState::Base => {
            match literal_opener_at(s, i) {
                Some(t) => (ParseState::StringLiteral(t), out.push(ch)),
                None => {
                    if multiline_comment_start_at(s, i) {
                        (ParseState::MultiLineComment, trim_for_comment(out))
                    } else if line_comment_start_at(s, i) {
                        (ParseState::LineComment, trim_for_comment(out))
                    } else {
                        (ParseState::Base, out.push(ch))
                    }
                },
            }
        },
    }
}

/// The output of the scanner run from position `i` in state `st` with output
/// `out` already produced, to the end of the input.
pub open spec fn scan_from(s: Seq<char>, i: int, st: ParseState, out: Seq<char>) -> Seq<char>
    decreases s.len() - i,
{
    if i < 0 || i >= s.len() {
        out
    } else {
        scan_from(s, i + 1, step(s, i, st, out).0, step(s, i, st, out).1)
    }
}

/// The whole transformation: scan `s` from the start, in the base state, with
/// an empty output.
pub open spec fn stripped(s: Seq<char>) -> Seq<char> {
    scan_from(s, 0, ParseState::Base, Seq::empty())
}

/// The literal opener at position `i`, if any, as the scanner looks it up.
pub(crate) fn string_literals(s: &Vec<char>, i: usize) -> (r: Option<Terminator>)
    requires
        i < s@.len(),
    ensures
        r == literal_opener_at(s@, i as int),
{
    let n = s.len();
    if s[i] == '\'' {
        Some(Terminator::SingleQuote)
    } else if s[i] == '"' {
        Some(Terminator::DoubleQuote)
    } else if s[i] == 'r' && n - i >= 3 && s[i + 1] == '#' && s[i + 2] == '"' {
        Some(Terminator::QuoteHash)
    } else {
        None
    }
}

/// The closing marker of the current literal begins at position `i`.
pub(crate) fn terminator_match(s: &Vec<char>, i: usize, t: Terminator) -> (r: bool)
    requires
        i < s@.len(),
    ensures
        r == terminator_at(s@, i as int, t),
{
    let n = s.len();
    match t {
        Terminator::SingleQuote => s[i] == '\'',
        Terminator::DoubleQuote => s[i] == '"',
        Terminator::QuoteHash => s[i] == '"' && i + 1 < n && s[i + 1] == '#',
    }
}

/// Removes from the end of the output, first any run of whitespace other than
/// line terminators, then the one line terminator (`\n` or `\r\n`) before it.
/// When no line terminator follows the run, the output is left unchanged: the
/// comment then shares its line with real code.
pub(crate) fn remove_trailing_newline_and_whitespace(out: &mut Vec<char>)
    ensures
        final(out)@ == trim_for_comment(old(out)@),
{
    let ghost orig = out@;
    proof {
        assert(orig.take(orig.len() as int) =~= orig);
    }
    let mut j: usize = out.len();
    while j > 0 && blank(out[j - 1])
        invariant
            j <= out@.len(),
            out@ == orig,
            forall|k: int| j <= k < orig.len() ==> is_blank(orig[k]),
            drop_trailing_blanks(orig) == drop_trailing_blanks(orig.take(j as int)),
        decreases j,
    {
        proof {
            assert(orig.take(j as int).drop_last() =~= orig.take(j - 1));
        }
        j = j - 1;
    }
    proof {
        assert(orig.take(j as int) =~= drop_trailing_blanks(orig.take(j as int)));
        assert(orig.take(out@.len() as int) =~= orig);
    }
    let ghost t = drop_trailing_blanks(orig);
    if j >= 2 && out[j - 2] == '\r' && out[j - 1] == '\n' {
        out.truncate(j - 2);
        proof {
            assert(out@ =~= t.take(t.len() - 2));
        }
    } else if j >= 1 && out[j - 1] == '\n' {
        out.truncate(j - 1);
        proof {
            assert(out@ =~= t.take(t.len() - 1));
        }
    }
}

/// Removes `//` and `/*...*/` comments from `input`, leaving the contents of
/// `'...'`, `"..."` and `r#"..."#` literals untouched. A line whose only
/// content besides whitespace was a comment disappears entirely, together
/// with its line terminator. The scan never fails: an unterminated comment or
/// literal simply runs to the end of the input.
pub fn strip_comments(input: &str) -> (out: String)
    ensures
        out@ == stripped(input@),
{
    let chars = to_chars(input);
    let n = chars.len();
    let mut output: Vec<char> = Vec::new();
    let mut parse_state = ParseState::Base;
    let mut i: usize = 0;
    while i < n
        invariant
            i <= n,
            n == chars@.len(),
            chars@ == input@,
            scan_from(chars@, i as int, parse_state, output@) == stripped(input@),
        decreases n - i,
    {
        let ghost prev_state = parse_state;
        let ghost prev_out = output@;
        let ch = chars[i];
        match parse_state {
            ParseState::LineComment => {
                if starts_with_newline(&chars, i) {
                    parse_state = ParseState::Base;
                    output.push(ch);
                }
            },
            ParseState::MultiLineComment => {
                if multiline_comment_end(&chars, i) {
                    parse_state = ParseState::EndingMultiLineComment;
                }
            },
            ParseState::EndingMultiLineComment => {
                parse_state = ParseState::Base;
            },
            ParseState::StringLiteral(literal_end) => {
                if terminator_match(&chars, i, literal_end) {
                    parse_state = ParseState::Base;
                } else if escapes_literal_end(ch) {
                    parse_state = ParseState::StringLiteralEscaped(literal_end);
                }
                output.push(ch);
            },
            ParseState::StringLiteralEscaped(literal_end) => {
                parse_state = ParseState::StringLiteral(literal_end);
                output.push(ch);
            },
            ParseState::Base => {
                if let Some(literal_end) = string_literals(&chars, i) {
                    parse_state = ParseState::StringLiteral(literal_end);
                    output.push(ch);
                } else if multiline_comment_start(&chars, i) {
                    remove_trailing_newline_and_whitespace(&mut output);
                    parse_state = ParseState::MultiLineComment;
                } else if line_comment_start(&chars, i) {
                    remove_trailing_newline_and_whitespace(&mut output);
                    parse_state = ParseState::LineComment;
                } else {
                    output.push(ch);
                }
            },
        }
        proof {
            assert((parse_state, output@) == step(chars@, i as int, prev_state, prev_out));
        }
        i = i + 1;
    }
    chars_to_string(&output)
}

} // verus!
