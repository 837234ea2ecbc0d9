//! Proved properties of the full scanner: literals are copied through opaquely,
//! escapes consume exactly one character, quote kinds are independent,
//! unterminated constructs run to the end of input, comment-only lines vanish
//! entirely, and characters outside the markers pass through unchanged.

use vstd::prelude::*;

use crate::scanner::{
    literal_opener_at, scan_from, terminator_at, trim_for_comment, drop_trailing_blanks,
    ParseState, Terminator,
};
use crate::text::{
    is_blank, line_comment_start_at, multiline_comment_end_at, multiline_comment_start_at,
    newline_at,
};

verus! {

/// The position at which the scanner leaves a literal opened with closing
/// marker `t` and returns to the base state, scanning from position `i`: one
/// past the first unescaped occurrence of the marker's first character, or the
/// end of the input when the literal never closes.
pub open spec fn literal_end(s: Seq<char>, i: int, t: Terminator) -> int
    decreases s.len() - i,
{
    if i < 0 || i >= s.len() {
        s.len() as int
    } else if terminator_at(s, i, t) {
        i + 1
    } else if s[i] == '\\' {
        if i + 1 >= s.len() {
            s.len() as int
        } else {
            literal_end(s, i + 2, t)
        }
    } else {
        literal_end(s, i + 1, t)
    }
}

/// A literal opener met in the base state is itself copied to the output, and
/// the scanner enters the literal it opens; from there `lemma_literal_opacity`
/// says that the literal's contents are copied through unchanged.
pub proof fn lemma_literal_opener(s: Seq<char>, i: int, t: Terminator, out: Seq<char>)
    requires
        0 <= i < s.len(),
        literal_opener_at(s, i) == Some(t),
    ensures
        scan_from(s, i, ParseState::Base, out) == scan_from(
            s,
            i + 1,
            ParseState::StringLiteral(t),
            out.push(s[i]),
        ),
{
}

/// Literal opacity: every character of a literal, from any position inside it
/// up to where it closes, is appended to the output exactly as it stands in
/// the input — however much it looks like a comment — and scanning resumes in
/// the base state right after the closing marker's first character.
pub proof fn lemma_literal_opacity(s: Seq<char>, i: int, t: Terminator, out: Seq<char>)
    requires
        0 <= i <= s.len(),
    ensures
        i <= literal_end(s, i, t) <= s.len(),
        scan_from(s, i, ParseState::StringLiteral(t), out) == scan_from(
            s,
            literal_end(s, i, t),
            ParseState::Base,
            out + s.subrange(i, literal_end(s, i, t)),
        ),
    decreases s.len() - i,
{
    let j = literal_end(s, i, t);
    if i == s.len() {
        assert(out + s.subrange(i, i) =~= out);
    } else if terminator_at(s, i, t) {
        assert(scan_from(s, i, ParseState::StringLiteral(t), out) == scan_from(
            s,
            i + 1,
            ParseState::Base,
            out.push(s[i]),
        ));
        assert(out.push(s[i]) =~= out + s.subrange(i, i + 1));
    } else if s[i] == '\\' {
        assert(scan_from(s, i, ParseState::StringLiteral(t), out) == scan_from(
            s,
            i + 1,
            ParseState::StringLiteralEscaped(t),
            out.push(s[i]),
        ));
        if i + 1 >= s.len() {
            assert(out.push(s[i]) =~= out + s.subrange(i, i + 1));
        } else {
            assert(scan_from(s, i + 1, ParseState::StringLiteralEscaped(t), out.push(s[i]))
                == scan_from(
                s,
                i + 2,
                ParseState::StringLiteral(t),
                out.push(s[i]).push(s[i + 1]),
            ));
            lemma_literal_opacity(s, i + 2, t, out.push(s[i]).push(s[i + 1]));
            assert(out.push(s[i]).push(s[i + 1]) + s.subrange(i + 2, j) =~= out + s.subrange(
                i,
                j,
            ));
        }
    } else {
        assert(scan_from(s, i, ParseState::StringLiteral(t), out) == scan_from(
            s,
            i + 1,
            ParseState::StringLiteral(t),
            out.push(s[i]),
        ));
        lemma_literal_opacity(s, i + 1, t, out.push(s[i]));
        assert(out.push(s[i]) + s.subrange(i + 1, j) =~= out + s.subrange(i, j));
    }
}

/// An unterminated literal runs to the end of the input: its contents are
/// preserved verbatim and no error arises.
pub proof fn lemma_unterminated_literal_runs_to_eof(
    s: Seq<char>,
    i: int,
    t: Terminator,
    out: Seq<char>,
)
    requires
        0 <= i <= s.len(),
        literal_end(s, i, t) == s.len(),
    ensures
        scan_from(s, i, ParseState::StringLiteral(t), out) == out + s.subrange(
            i,
            s.len() as int,
        ),
{
    lemma_literal_opacity(s, i, t, out);
}

/// Escape correctness: a backslash inside a literal consumes and preserves
/// exactly the one character after it, and the literal does not close on that
/// character — even when it is the literal's own closing marker.
pub proof fn lemma_escape_consumes_next(s: Seq<char>, i: int, t: Terminator, out: Seq<char>)
    requires
        0 <= i,
        i + 1 < s.len(),
        s[i] == '\\',
    ensures
        scan_from(s, i, ParseState::StringLiteral(t), out) == scan_from(
            s,
            i + 2,
            ParseState::StringLiteral(t),
            out.push('\\').push(s[i + 1]),
        ),
{
    assert(scan_from(s, i, ParseState::StringLiteral(t), out) == scan_from(
        s,
        i + 1,
        ParseState::StringLiteralEscaped(t),
        out.push('\\'),
    ));
    assert(scan_from(s, i + 1, ParseState::StringLiteralEscaped(t), out.push('\\')) == scan_from(
        s,
        i + 2,
        ParseState::StringLiteral(t),
        out.push('\\').push(s[i + 1]),
    ));
}

/// A closing marker preceded by an even number of consecutive backslashes does
/// close the literal: each backslash escapes exactly the one character after
/// it, so the backslashes pair off and leave the marker unescaped.
pub proof fn lemma_even_escapes_still_close(
    s: Seq<char>,
    i: int,
    k: int,
    t: Terminator,
    out: Seq<char>,
)
    requires
        0 <= i,
        k >= 0,
        terminator_at(s, i + 2 * k, t),
        forall|m: int| i <= m < i + 2 * k ==> s[m] == '\\',
    ensures
        scan_from(s, i, ParseState::StringLiteral(t), out) == scan_from(
            s,
            i + 2 * k + 1,
            ParseState::Base,
            out + s.subrange(i, i + 2 * k + 1),
        ),
    decreases k,
{
    if k == 0 {
        assert(out.push(s[i]) =~= out + s.subrange(i, i + 1));
    } else {
        assert(s[i] == '\\');
        assert(s[i + 1] == '\\');
        lemma_escape_consumes_next(s, i, t, out);
        lemma_even_escapes_still_close(s, i + 2, k - 1, t, out.push('\\').push(s[i + 1]));
        assert(out.push('\\').push(s[i + 1]) + s.subrange(i + 2, i + 2 * k + 1) =~= out
            + s.subrange(i, i + 2 * k + 1));
    }
}

/// Quote independence: inside a single-quoted literal a double quote is plain
/// content, and inside a double-quoted literal a single quote is — neither
/// closes the other's literal.
pub proof fn lemma_quote_independence(s: Seq<char>, i: int, t: Terminator, out: Seq<char>)
    requires
        0 <= i < s.len(),
        (t == Terminator::SingleQuote && s[i] == '"') || (t == Terminator::DoubleQuote && s[i]
            == '\''),
    ensures
        scan_from(s, i, ParseState::StringLiteral(t), out) == scan_from(
            s,
            i + 1,
            ParseState::StringLiteral(t),
            out.push(s[i]),
        ),
{
}

/// An unterminated line comment consumes the rest of the input: nothing more
/// is appended to the output and no error arises.
pub proof fn lemma_line_comment_runs_to_eof(s: Seq<char>, i: int, out: Seq<char>)
    requires
        0 <= i <= s.len(),
        forall|k: int| i <= k < s.len() ==> !newline_at(s, k),
    ensures
        scan_from(s, i, ParseState::LineComment, out) == out,
    decreases s.len() - i,
{
    if i < s.len() {
        lemma_line_comment_runs_to_eof(s, i + 1, out);
    }
}

/// An unterminated block comment consumes the rest of the input: nothing more
/// is appended to the output and no error arises.
pub proof fn lemma_block_comment_runs_to_eof(s: Seq<char>, i: int, out: Seq<char>)
    requires
        0 <= i <= s.len(),
        forall|k: int| i <= k < s.len() ==> !multiline_comment_end_at(s, k),
    ensures
        scan_from(s, i, ParseState::MultiLineComment, out) == out,
    decreases s.len() - i,
{
    if i < s.len() {
        lemma_block_comment_runs_to_eof(s, i + 1, out);
    }
}

/// In the base state a character that opens no literal and no comment is
/// appended to the output unchanged, right after everything scanned before it.
pub proof fn lemma_base_passthrough(s: Seq<char>, i: int, out: Seq<char>)
    requires
        0 <= i < s.len(),
        literal_opener_at(s, i) is None,
        !multiline_comment_start_at(s, i),
        !line_comment_start_at(s, i),
    ensures
        scan_from(s, i, ParseState::Base, out) == scan_from(
            s,
            i + 1,
            ParseState::Base,
            out.push(s[i]),
        ),
{
}

/// Non-ASCII passthrough: a character outside the ASCII range matches no
/// marker, so in the base state it is appended to the output unchanged and in
/// its place relative to everything scanned before it.
pub proof fn lemma_non_ascii_passthrough(s: Seq<char>, i: int, out: Seq<char>)
    requires
        0 <= i < s.len(),
        s[i] as u32 >= 128,
    ensures
        scan_from(s, i, ParseState::Base, out) == scan_from(
            s,
            i + 1,
            ParseState::Base,
            out.push(s[i]),
        ),
{
    assert(s[i] != '\'' && s[i] != '"' && s[i] != 'r' && s[i] != '/');
    lemma_base_passthrough(s, i, out);
}

proof fn lemma_drop_blanks_append(a: Seq<char>, b: Seq<char>)
    requires
        forall|k: int| 0 <= k < b.len() ==> is_blank(b[k]),
    ensures
        drop_trailing_blanks(a + b) == drop_trailing_blanks(a),
    decreases b.len(),
{
    if b.len() == 0 {
        assert(a + b =~= a);
    } else {
        assert(is_blank((a + b)[(a + b).len() - 1]));
        assert((a + b).drop_last() =~= a + b.drop_last());
        lemma_drop_blanks_append(a, b.drop_last());
    }
}

/// The retroactive trim undoes a line that held nothing but blanks: when the
/// output is some prefix, then one line terminator, then only blanks, trimming
/// removes the blanks and the terminator and leaves exactly the prefix.
pub proof fn lemma_trim_removes_blank_line(prefix: Seq<char>, nl: Seq<char>, blanks: Seq<char>)
    requires
        nl == seq!['\r', '\n'] || (nl == seq!['\n'] && (prefix.len() == 0 || prefix[prefix.len()
            - 1] != '\r')),
        forall|k: int| 0 <= k < blanks.len() ==> is_blank(blanks[k]),
    ensures
        trim_for_comment(prefix + nl + blanks) == prefix,
{
    lemma_drop_blanks_append(prefix + nl, blanks);
    let t = drop_trailing_blanks(prefix + nl);
    assert(!is_blank('\n'));
    assert((prefix + nl)[(prefix + nl).len() - 1] == '\n');
    assert(t == prefix + nl);
    if nl == seq!['\r', '\n'] {
        assert(t[t.len() - 2] == '\r');
        assert(t.take(t.len() - 2) =~= prefix);
    } else {
        assert(t.take(t.len() - 1) =~= prefix);
    }
}

proof fn lemma_blanks_passthrough(s: Seq<char>, i: int, j: int, out: Seq<char>)
    requires
        0 <= i <= j <= s.len(),
        forall|k: int| i <= k < j ==> is_blank(s[k]),
    ensures
        scan_from(s, i, ParseState::Base, out) == scan_from(
            s,
            j,
            ParseState::Base,
            out + s.subrange(i, j),
        ),
    decreases j - i,
{
    if i == j {
        assert(out + s.subrange(i, i) =~= out);
    } else {
        assert(is_blank(s[i]));
        assert(s[i] != '\'' && s[i] != '"' && s[i] != 'r' && s[i] != '/');
        lemma_blanks_passthrough(s, i + 1, j, out.push(s[i]));
        assert(out.push(s[i]) + s.subrange(i + 1, j) =~= out + s.subrange(i, j));
    }
}

/// Comment-only line elision, end to end: when the output so far ends with a
/// line terminator and the input from position `i` holds only blanks and then
/// a comment opener, the scanner drops the blanks, the terminator before them,
/// and the opener: the whole line the comment stood on is absent from the
/// output.
pub proof fn lemma_comment_only_line_elided(
    s: Seq<char>,
    i: int,
    j: int,
    prefix: Seq<char>,
    nl: Seq<char>,
)
    requires
        0 <= i <= j,
        j < s.len(),
        forall|k: int| i <= k < j ==> is_blank(s[k]),
        multiline_comment_start_at(s, j) || line_comment_start_at(s, j),
        nl == seq!['\r', '\n'] || (nl == seq!['\n'] && (prefix.len() == 0 || prefix[prefix.len()
            - 1] != '\r')),
    ensures
        multiline_comment_start_at(s, j) ==> scan_from(s, i, ParseState::Base, prefix + nl)
            == scan_from(s, j + 1, ParseState::MultiLineComment, prefix),
        !multiline_comment_start_at(s, j) ==> scan_from(s, i, ParseState::Base, prefix + nl)
            == scan_from(s, j + 1, ParseState::LineComment, prefix),
{
    lemma_blanks_passthrough(s, i, j, prefix + nl);
    lemma_trim_removes_blank_line(prefix, nl, s.subrange(i, j));
    assert(literal_opener_at(s, j) is None);
    assert(trim_for_comment(prefix + nl + s.subrange(i, j)) == prefix);
}

} // verus!
