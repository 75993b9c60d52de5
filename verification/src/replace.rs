//! Literal replacement of every occurrence of a pattern in a text.

use vstd::prelude::*;

verus! {

/// `pattern` occurs in `text` at position `at`.
pub open spec fn occurs_at(text: Seq<char>, pattern: Seq<char>, at: int) -> bool {
    &&& 0 <= at
    &&& at + pattern.len() <= text.len()
    &&& text.subrange(at, at + pattern.len()) == pattern
}

/// `text` with every occurrence of `pattern` replaced by `with`. Occurrences
/// are found from left to right and do not overlap: the search goes on
/// behind an occurrence that was replaced, and one character further where
/// there was none. The empty pattern occurs before every character and at
/// the end of the text.
pub open spec fn replaced(text: Seq<char>, pattern: Seq<char>, with: Seq<char>) -> Seq<char>
    decreases text.len(),
{
    if pattern.len() == 0 {
        if text.len() == 0 {
            with
        } else {
            with + seq![text[0]] + replaced(text.drop_first(), pattern, with)
        }
    } else if text.len() < pattern.len() {
        text
    } else if occurs_at(text, pattern, 0) {
        with + replaced(text.subrange(pattern.len() as int, text.len() as int), pattern, with)
    } else {
        seq![text[0]] + replaced(text.drop_first(), pattern, with)
    }
}

/// A text in which a non-empty pattern does not occur is left as it is.
pub proof fn lemma_replaced_without_occurrence(
    text: Seq<char>,
    pattern: Seq<char>,
    with: Seq<char>,
)
    requires
        pattern.len() > 0,
        forall|at: int| !occurs_at(text, pattern, at),
    ensures
        replaced(text, pattern, with) == text,
    decreases text.len(),
{
    if text.len() >= pattern.len() {
        assert(!occurs_at(text, pattern, 0));
        let rest = text.drop_first();
        assert forall|at: int| !occurs_at(rest, pattern, at) by {
            if occurs_at(rest, pattern, at) {
                assert(rest.subrange(at, at + pattern.len()) =~= text.subrange(
                    at + 1,
                    at + 1 + pattern.len(),
                ));
                assert(occurs_at(text, pattern, at + 1));
            }
        }
        lemma_replaced_without_occurrence(rest, pattern, with);
        assert(seq![text[0]] + rest =~= text);
    }
}

/// Up to the first occurrence of a non-empty pattern the text stays as it
/// is, the occurrence gives way to `with`, and the search goes on behind it.
pub proof fn lemma_replaced_first_occurrence(
    text: Seq<char>,
    pattern: Seq<char>,
    with: Seq<char>,
    at: int,
)
    requires
        pattern.len() > 0,
        occurs_at(text, pattern, at),
        forall|k: int| 0 <= k < at ==> !occurs_at(text, pattern, k),
    ensures
        replaced(text, pattern, with) == text.take(at) + with + replaced(
            text.skip(at + pattern.len()),
            pattern,
            with,
        ),
    decreases at,
{
    if at == 0 {
        assert(text.take(0) + with =~= with);
    } else {
        let rest = text.drop_first();
        assert(!occurs_at(text, pattern, 0));
        assert(rest.subrange(at - 1, at - 1 + pattern.len()) =~= text.subrange(
            at,
            at + pattern.len(),
        ));
        assert forall|k: int| 0 <= k < at - 1 implies !occurs_at(rest, pattern, k) by {
            assert(rest.subrange(k, k + pattern.len()) =~= text.subrange(
                k + 1,
                k + 1 + pattern.len(),
            ));
            assert(!occurs_at(text, pattern, k + 1));
        }
        lemma_replaced_first_occurrence(rest, pattern, with, at - 1);
        assert(rest.skip(at - 1 + pattern.len()) =~= text.skip(at + pattern.len()));
        assert(seq![text[0]] + rest.take(at - 1) =~= text.take(at));
    }
}

/// Whether `pattern` occurs in `text` at position `at`.
pub fn is_occurrence(text: &Vec<char>, pattern: &Vec<char>, at: usize) -> (yes: bool)
    ensures
        yes == occurs_at(text@, pattern@, at as int),
{
    let n = text.len();
    let m = pattern.len();
    if at > n || n - at < m {
        return false;
    }
    let mut k: usize = 0;
    while k < m
        invariant
            k <= m,
            m == pattern@.len(),
            n == text@.len(),
            at + m <= n,
            text@.subrange(at as int, at + k) == pattern@.take(k as int),
        decreases m - k,
    {
        if text[at + k] != pattern[k] {
            assert(text@.subrange(at as int, at + m)[k as int] != pattern@[k as int]);
            return false;
        }
        k += 1;
        assert(text@.subrange(at as int, at + k) =~= text@.subrange(at as int, at + k - 1).push(
            text@[at + k - 1],
        ));
        assert(pattern@.take(k as int) =~= pattern@.take(k - 1).push(pattern@[k - 1]));
    }
    assert(pattern@.take(m as int) =~= pattern@);
    true
}

/// Replaces every occurrence of `pattern` in `text` by `with`.
pub fn replace_all(text: &Vec<char>, pattern: &Vec<char>, with: &Vec<char>) -> (out: Vec<char>)
    ensures
        out@ == replaced(text@, pattern@, with@),
{
    let n = text.len();
    let m = pattern.len();
    let mut out: Vec<char> = Vec::new();
    let mut at: usize = 0;
    proof {
        assert(text@.subrange(0, n as int) =~= text@);
    }
    while at < n
        invariant
            at <= n,
            n == text@.len(),
            m == pattern@.len(),
            replaced(text@, pattern@, with@) == out@ + replaced(
                text@.subrange(at as int, n as int),
                pattern@,
                with@,
            ),
        decreases n - at,
    {
        let ghost rest = text@.subrange(at as int, n as int);
        let ghost done = out@;
        if m == 0 {
            append(&mut out, with);
            out.push(text[at]);
            proof {
                assert(rest.drop_first() =~= text@.subrange(at + 1, n as int));
                assert(out@ =~= done + (with@ + seq![rest[0]]));
            }
            at += 1;
        } else if is_occurrence(text, pattern, at) {
            append(&mut out, with);
            proof {
                assert(rest.subrange(0, m as int) =~= text@.subrange(at as int, at + m));
                assert(rest.subrange(m as int, rest.len() as int) =~= text@.subrange(
                    at + m,
                    n as int,
                ));
            }
            at += m;
        } else {
            out.push(text[at]);
            proof {
                if rest.len() >= m {
                    assert(rest.subrange(0, m as int) =~= text@.subrange(at as int, at + m));
                } else {
                    lemma_replaced_short(rest, pattern@, with@);
                }
                assert(rest.drop_first() =~= text@.subrange(at + 1, n as int));
                assert(out@ =~= done + seq![rest[0]]);
            }
            at += 1;
        }
    }
    if m == 0 {
        append(&mut out, with);
    }
    proof {
        assert(text@.subrange(n as int, n as int) =~= Seq::<char>::empty());
    }
    out
}

/// A text shorter than a non-empty pattern is replaced character by
/// character, as a longer one is where the pattern does not occur at its
/// start.
proof fn lemma_replaced_short(text: Seq<char>, pattern: Seq<char>, with: Seq<char>)
    requires
        0 < text.len() < pattern.len(),
    ensures
        replaced(text, pattern, with) == seq![text[0]] + replaced(
            text.drop_first(),
            pattern,
            with,
        ),
{
    assert(seq![text[0]] + text.drop_first() =~= text);
}

/// Appends the characters of `more` to `out`.
fn append(out: &mut Vec<char>, more: &Vec<char>)
    ensures
        final(out)@ == old(out)@ + more@,
{
    let mut i: usize = 0;
    while i < more.len()
        invariant
            i <= more@.len(),
            out@ == old(out)@ + more@.take(i as int),
        decreases more@.len() - i,
    {
        out.push(more[i]);
        i += 1;
    }
}

} // verus!
