//! Substring search on text.
use vstd::prelude::*;
use vstd::string::StrSliceExecFns;

verus! {

/// `needle` occurs as a contiguous run of characters in `haystack` (the
/// empty text occurs in every text).
pub open spec fn occurs_in(haystack: Seq<char>, needle: Seq<char>) -> bool {
    exists|i: int| 0 <= i && i + needle.len() <= haystack.len()
        && #[trigger] haystack.subrange(i, i + needle.len()) == needle
}

/// Whether `needle` occurs in `haystack` at character position `at`.
fn occurs_at(haystack: &str, needle: &str, at: usize, n: usize, m: usize) -> (b: bool)
    requires
        n == haystack@.len(),
        m == needle@.len(),
        at + m <= n,
    ensures
        b == (haystack@.subrange(at as int, at + m) == needle@),
{
    let mut j: usize = 0;
    while j < m
        invariant
            n == haystack@.len(),
            m == needle@.len(),
            at + m <= n,
            j <= m,
            forall|k: int| 0 <= k < j ==> haystack@[at + k] == needle@[k],
        decreases m - j,
    {
        if haystack.get_char(at + j) != needle.get_char(j) {
            assert(haystack@.subrange(at as int, at + m)[j as int] != needle@[j as int]);
            return false;
        }
        j = j + 1;
    }
    assert(haystack@.subrange(at as int, at + m) =~= needle@);
    true
}

/// Whether `needle` occurs in `haystack`.
pub fn contains_text(haystack: &str, needle: &str) -> (b: bool)
    ensures
        b == occurs_in(haystack@, needle@),
        b == exists|i: int| 0 <= i && i + needle@.len() <= haystack@.len()
            && #[trigger] haystack@.subrange(i, i + needle@.len()) == needle@,
{
    let n = haystack.unicode_len();
    let m = needle.unicode_len();
    if m > n {
        return false;
    }
    let mut i: usize = 0;
    while i < n - m
        invariant
            n == haystack@.len(),
            m == needle@.len(),
            m <= n,
            i <= n - m,
            forall|k: int| 0 <= k < i ==> #[trigger] haystack@.subrange(k, k + m) != needle@,
        decreases n - m - i,
    {
        if occurs_at(haystack, needle, i, n, m) {
            return true;
        }
        i = i + 1;
    }
    occurs_at(haystack, needle, n - m, n, m)
}

/// How many times `c` occurs in `s`.
pub open spec fn count_char(s: Seq<char>, c: char) -> nat
    decreases s.len(),
{
    if s.len() == 0 {
        0
    } else {
        count_char(s.drop_last(), c) + if s.last() == c { 1nat } else { 0nat }
    }
}

pub proof fn lemma_count_concat(a: Seq<char>, b: Seq<char>, c: char)
    ensures
        count_char(a + b, c) == count_char(a, c) + count_char(b, c),
    decreases b.len(),
{
    if b.len() > 0 {
        assert((a + b).drop_last() =~= a + b.drop_last());
        lemma_count_concat(a, b.drop_last(), c);
    }
}

pub proof fn lemma_count_absent(s: Seq<char>, c: char)
    requires
        forall|i: int| 0 <= i < s.len() ==> s[i] != c,
    ensures
        count_char(s, c) == 0,
    decreases s.len(),
{
    if s.len() > 0 {
        lemma_count_absent(s.drop_last(), c);
    }
}

/// The text is one `SELECT` statement: it starts with `SELECT ` and holds
/// no `;` that could begin another statement, so running it only reads.
pub open spec fn is_single_select(text: Seq<char>) -> bool {
    &&& text.len() >= 7
    &&& text.subrange(0, 7) == "SELECT "@
    &&& count_char(text, ';') == 0
}

} // verus!
