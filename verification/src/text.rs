//! Character-level predicates shared by the scanners, and the conversions
//! between `&str`/`String` and `Vec<char>` that the scanners work on.

use vstd::prelude::*;
use vstd::string::StrSliceExecFns;

verus! {

/// Whitespace that does not terminate a line: every Unicode white-space
/// character except `\n` and `\r`.
pub open spec fn is_blank(c: char) -> bool {
    ||| c == ' '
    ||| c == '\t'
    ||| c == '\u{b}'
    ||| c == '\u{c}'
    ||| c == '\u{85}'
    ||| c == '\u{a0}'
    ||| c == '\u{1680}'
    ||| c == '\u{2000}'
    ||| c == '\u{2001}'
    ||| c == '\u{2002}'
    ||| c == '\u{2003}'
    ||| c == '\u{2004}'
    ||| c == '\u{2005}'
    ||| c == '\u{2006}'
    ||| c == '\u{2007}'
    ||| c == '\u{2008}'
    ||| c == '\u{2009}'
    ||| c == '\u{200a}'
    ||| c == '\u{2028}'
    ||| c == '\u{2029}'
    ||| c == '\u{202f}'
    ||| c == '\u{205f}'
    ||| c == '\u{3000}'
}

/// A line terminator begins at position `i`: either `\n` or the pair `\r\n`.
pub open spec fn newline_at(s: Seq<char>, i: int) -> bool {
    0 <= i < s.len() && (s[i] == '\n' || (s[i] == '\r' && i + 1 < s.len() && s[i + 1] == '\n'))
}

/// The block-comment opener `/*` begins at position `i`.
pub open spec fn multiline_comment_start_at(s: Seq<char>, i: int) -> bool {
    0 <= i && i + 2 <= s.len() && s[i] == '/' && s[i + 1] == '*'
}

/// The block-comment closer `*/` begins at position `i`.
pub open spec fn multiline_comment_end_at(s: Seq<char>, i: int) -> bool {
    0 <= i && i + 2 <= s.len() && s[i] == '*' && s[i + 1] == '/'
}

/// The line-comment opener `//` begins at position `i`.
pub open spec fn line_comment_start_at(s: Seq<char>, i: int) -> bool {
    0 <= i && i + 2 <= s.len() && s[i] == '/' && s[i + 1] == '/'
}

pub(crate) fn blank(c: char) -> (r: bool)
    ensures
        r == is_blank(c),
{
    c == ' ' || c == '\t' || c == '\u{b}' || c == '\u{c}' || c == '\u{85}' || c == '\u{a0}'
        || c == '\u{1680}' || c == '\u{2000}' || c == '\u{2001}' || c == '\u{2002}'
        || c == '\u{2003}' || c == '\u{2004}' || c == '\u{2005}' || c == '\u{2006}'
        || c == '\u{2007}' || c == '\u{2008}' || c == '\u{2009}' || c == '\u{200a}'
        || c == '\u{2028}' || c == '\u{2029}' || c == '\u{202f}' || c == '\u{205f}'
        || c == '\u{3000}'
}

pub(crate) fn starts_with_newline(s: &Vec<char>, i: usize) -> (r: bool)
    requires
        i < s@.len(),
    ensures
        r == newline_at(s@, i as int),
{
    let n = s.len();
    s[i] == '\n' || (s[i] == '\r' && i + 1 < n && s[i + 1] == '\n')
}

pub(crate) fn multiline_comment_start(s: &Vec<char>, i: usize) -> (r: bool)
    requires
        i < s@.len(),
    ensures
        r == multiline_comment_start_at(s@, i as int),
{
    let n = s.len();
    s[i] == '/' && i + 1 < n && s[i + 1] == '*'
}

pub(crate) fn multiline_comment_end(s: &Vec<char>, i: usize) -> (r: bool)
    requires
        i < s@.len(),
    ensures
        r == multiline_comment_end_at(s@, i as int),
{
    let n = s.len();
    s[i] == '*' && i + 1 < n && s[i + 1] == '/'
}

pub(crate) fn line_comment_start(s: &Vec<char>, i: usize) -> (r: bool)
    requires
        i < s@.len(),
    ensures
        r == line_comment_start_at(s@, i as int),
{
    let n = s.len();
    s[i] == '/' && i + 1 < n && s[i + 1] == '/'
}

pub(crate) fn escapes_literal_end(ch: char) -> (r: bool)
    ensures
        r == (ch == '\\'),
{
    ch == '\\'
}

pub(crate) fn to_chars(s: &str) -> (r: Vec<char>)
    ensures
        r@ == s@,
{
    let n = s.unicode_len();
    let mut r: Vec<char> = Vec::new();
    let mut i: usize = 0;
    while i < n
        invariant
            i <= n,
            n == s@.len(),
            r@ == s@.take(i as int),
        decreases n - i,
    {
        r.push(s.get_char(i));
        i = i + 1;
        proof {
            assert(r@ =~= s@.take(i as int));
        }
    }
    proof {
        assert(s@.take(n as int) =~= s@);
    }
    r
}

/// Relies on `String`'s `FromIterator<char>`: collecting characters yields the
/// string of exactly those characters, in order.
#[verifier::external_body]
pub(crate) fn chars_to_string(v: &Vec<char>) -> (r: String)
    ensures
        r@ == v@,
{
    v.iter().collect()
}

} // verus!
