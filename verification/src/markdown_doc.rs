//! Splitting a document into its front-matter header and its body.
//!
//! A header is fenced by two delimiter lines, each made of exactly three
//! hyphens. The opening delimiter is the first line of the document; the
//! closing delimiter is the next such line. Lines end with `'\n'`; the last
//! line of a document may go without.

use crate::text::chars_of;
use vstd::prelude::*;

verus! {

/// A delimiter line starts at position `at` of `source`.
pub open spec fn delimiter_at(source: Seq<char>, at: int) -> bool {
    &&& 0 <= at
    &&& at + 3 <= source.len()
    &&& at == 0 || source[at - 1] == '\n'
    &&& source[at] == '-'
    &&& source[at + 1] == '-'
    &&& source[at + 2] == '-'
    &&& at + 3 == source.len() || source[at + 3] == '\n'
}

/// The header of `source` is closed at `at`: `source` opens with a delimiter
/// line, and the first delimiter line after it starts at `at`.
pub open spec fn closes_at(source: Seq<char>, at: int) -> bool {
    &&& delimiter_at(source, 0)
    &&& 4 <= at
    &&& delimiter_at(source, at)
    &&& forall|k: int| 4 <= k < at ==> !delimiter_at(source, k)
}

/// `source` has a header: an opening delimiter line and a closing one.
pub open spec fn has_header(source: Seq<char>) -> bool {
    exists|at: int| closes_at(source, at)
}

/// Where the closing delimiter line of `source` starts, if it has a header.
pub open spec fn closing_offset(source: Seq<char>) -> int {
    choose|at: int| closes_at(source, at)
}

/// The lines between the two delimiter lines, when the closing one starts at
/// `at`, without the line break that ends the last of them.
pub open spec fn header_before(source: Seq<char>, at: int) -> Seq<char> {
    if at <= 4 {
        Seq::empty()
    } else {
        source.subrange(4, at - 1)
    }
}

/// What follows the closing delimiter line that starts at `at`.
pub open spec fn body_after(source: Seq<char>, at: int) -> Seq<char> {
    if at + 4 <= source.len() {
        source.subrange(at + 4, source.len() as int)
    } else {
        Seq::empty()
    }
}

/// The header text of `source`: empty where it has no header.
pub open spec fn header_of(source: Seq<char>) -> Seq<char> {
    if has_header(source) {
        header_before(source, closing_offset(source))
    } else {
        Seq::empty()
    }
}

/// The body of `source`: all of it where it has no header.
pub open spec fn body_of(source: Seq<char>) -> Seq<char> {
    if has_header(source) {
        body_after(source, closing_offset(source))
    } else {
        source
    }
}

/// A header is closed at one place only.
pub proof fn lemma_closing_offset(source: Seq<char>, at: int)
    requires
        closes_at(source, at),
    ensures
        has_header(source),
        closing_offset(source) == at,
{
    let chosen = closing_offset(source);
    assert(closes_at(source, chosen));
    if chosen < at {
        assert(!delimiter_at(source, chosen));
    } else if at < chosen {
        assert(!delimiter_at(source, at));
    }
}

/// A document without an opening delimiter line, or without a closing one,
/// is all body.
pub proof fn lemma_no_header_is_all_body(source: Seq<char>)
    requires
        !delimiter_at(source, 0) || forall|at: int| 4 <= at ==> !delimiter_at(source, at),
    ensures
        !has_header(source),
        header_of(source) == Seq::<char>::empty(),
        body_of(source) == source,
{
}

/// Header, delimiter lines and body put together give the source back: the
/// opening line, the header lines, the closing delimiter, and the body on
/// the lines after it.
pub proof fn lemma_split_rebuilds_source(source: Seq<char>)
    requires
        has_header(source),
    ensures
        ({
            let fence = seq!['-', '-', '-'];
            let header = header_of(source);
            let body = body_of(source);
            let break_line = seq!['\n'];
            let at = closing_offset(source);
            let header_lines = if at == 4 {
                header
            } else {
                header + break_line
            };
            let rest = if at + 3 == source.len() {
                body
            } else {
                break_line + body
            };
            source == fence + break_line + header_lines + fence + rest
        }),
{
    let at = closing_offset(source);
    assert(closes_at(source, at));
    let fence = seq!['-', '-', '-'];
    let break_line = seq!['\n'];
    let header_lines = if at == 4 {
        header_of(source)
    } else {
        header_of(source) + break_line
    };
    let rest = if at + 3 == source.len() {
        body_of(source)
    } else {
        break_line + body_of(source)
    };
    assert(source =~= fence + break_line + header_lines + fence + rest);
}

/// Whether a delimiter line starts at position `at` of `chars`.
pub fn is_delimiter_at(chars: &Vec<char>, at: usize) -> (yes: bool)
    ensures
        yes == delimiter_at(chars@, at as int),
{
    let n = chars.len();
    if n < 3 || at > n - 3 {
        return false;
    }
    (at == 0 || chars[at - 1] == '\n') && chars[at] == '-' && chars[at + 1] == '-' && chars[at
        + 2] == '-' && (at + 3 == n || chars[at + 3] == '\n')
}

/// Where the closing delimiter line of `chars` starts, if it has a header.
pub fn find_closing(chars: &Vec<char>) -> (found: Option<usize>)
    ensures
        match found {
            Some(at) => closes_at(chars@, at as int),
            None => !has_header(chars@),
        },
{
    if !is_delimiter_at(chars, 0) {
        return None;
    }
    let n = chars.len();
    let mut at: usize = 4;
    while at <= n - 3
        invariant
            n == chars@.len(),
            3 <= n,
            4 <= at,
            delimiter_at(chars@, 0),
            forall|k: int| 4 <= k < at ==> !delimiter_at(chars@, k),
        decreases n + 1 - at,
    {
        if is_delimiter_at(chars, at) {
            return Some(at);
        }
        at += 1;
    }
    None
}

/// A document split into the text of its header and its body.
pub struct MarkdownDoc<'a> {
    /// The header text, without the delimiter lines; empty where the
    /// document has no header.
    pub frontmatter: &'a str,
    /// Everything after the closing delimiter line; the whole document where
    /// it has no header.
    pub body: &'a str,
}

impl<'a> MarkdownDoc<'a> {
    /// Splits `s` into header and body. A document that does not open with a
    /// delimiter line, or whose header is never closed, is all body.
    pub fn parse(s: &'a str) -> (doc: MarkdownDoc<'a>)
        ensures
            doc.frontmatter@ == header_of(s@),
            doc.body@ == body_of(s@),
    {
        let chars = chars_of(s);
        match find_closing(&chars) {
            Some(at) => {
                proof {
                    lemma_closing_offset(s@, at as int);
                }
                let n = chars.len();
                let header_end = if at == 4 {
                    4
                } else {
                    at - 1
                };
                let body_start = if at + 3 == n {
                    n
                } else {
                    at + 4
                };
                MarkdownDoc {
                    frontmatter: s.substring_char(4, header_end),
                    body: s.substring_char(body_start, n),
                }
            },
            None => MarkdownDoc { frontmatter: s.substring_char(0, 0), body: s },
        }
    }
}

} // verus!
