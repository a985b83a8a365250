//! Character-level helpers on strings, each proved against a plain statement.

use vstd::prelude::*;

verus! {

/// Whether `p` is a prefix of `s`.
pub open spec fn is_prefix(p: Seq<char>, s: Seq<char>) -> bool {
    p.len() <= s.len() && s.subrange(0, p.len() as int) == p
}

/// The characters that `char::is_whitespace` accepts (the Unicode `White_Space` property).
pub open spec fn is_space(c: char) -> bool {
    ('\u{9}' <= c && c <= '\u{d}') || c == ' ' || c == '\u{85}' || c == '\u{a0}'
        || c == '\u{1680}' || ('\u{2000}' <= c && c <= '\u{200a}') || c == '\u{2028}'
        || c == '\u{2029}' || c == '\u{202f}' || c == '\u{205f}' || c == '\u{3000}'
}

/// Whether `s` holds nothing but white space and whole copies of the nonempty
/// text `m`, in any order (the empty text included).
pub open spec fn only_filler(s: Seq<char>, m: Seq<char>) -> bool
    decreases s.len(),
{
    if s.len() == 0 {
        true
    } else if is_space(s[0]) {
        only_filler(s.drop_first(), m)
    } else if m.len() > 0 && is_prefix(m, s) {
        only_filler(s.subrange(m.len() as int, s.len() as int), m)
    } else {
        false
    }
}

/// Whether `c` is white space.
pub fn char_is_space(c: char) -> (r: bool)
    ensures
        r == is_space(c),
{
    ('\u{9}' <= c && c <= '\u{d}') || c == ' ' || c == '\u{85}' || c == '\u{a0}'
        || c == '\u{1680}' || ('\u{2000}' <= c && c <= '\u{200a}') || c == '\u{2028}'
        || c == '\u{2029}' || c == '\u{202f}' || c == '\u{205f}' || c == '\u{3000}'
}

/// Character-wise equality of two strings.
pub fn str_eq(a: &str, b: &str) -> (r: bool)
    ensures
        r == (a@ == b@),
{
    let n = a.unicode_len();
    if n != b.unicode_len() {
        return false;
    }
    let mut i: usize = 0;
    while i < n
        invariant
            n == a@.len(),
            n == b@.len(),
            i <= n,
            a@.subrange(0, i as int) == b@.subrange(0, i as int),
        decreases n - i,
    {
        if a.get_char(i) != b.get_char(i) {
            return false;
        }
        proof {
            assert(a@.subrange(0, i + 1) == a@.subrange(0, i as int).push(a@[i as int]));
            assert(b@.subrange(0, i + 1) == b@.subrange(0, i as int).push(b@[i as int]));
        }
        i = i + 1;
    }
    proof {
        assert(a@ == a@.subrange(0, n as int));
        assert(b@ == b@.subrange(0, n as int));
    }
    true
}


/// Whether `p` occurs in `s` at character position `k`.
pub fn starts_with_at(s: &str, k: usize, p: &str) -> (r: bool)
    requires
        k <= s@.len(),
    ensures
        r == is_prefix(p@, s@.subrange(k as int, s@.len() as int)),
{
    let n = s.unicode_len();
    let m = p.unicode_len();
    let ghost t = s@.subrange(k as int, n as int);
    if m > n - k {
        return false;
    }
    let mut j: usize = 0;
    while j < m
        invariant
            n == s@.len(),
            m == p@.len(),
            k + m <= n,
            t == s@.subrange(k as int, n as int),
            j <= m,
            t.subrange(0, j as int) == p@.subrange(0, j as int),
        decreases m - j,
    {
        if s.get_char(k + j) != p.get_char(j) {
            proof {
                assert(t.subrange(0, m as int)[j as int] == t[j as int]);
            }
            return false;
        }
        proof {
            assert(t.subrange(0, j + 1) == t.subrange(0, j as int).push(t[j as int]));
            assert(p@.subrange(0, j + 1) == p@.subrange(0, j as int).push(p@[j as int]));
        }
        j = j + 1;
    }
    proof {
        assert(p@.subrange(0, m as int) == p@);
    }
    true
}

/// Whether `s` holds nothing but white space and copies of `m`.
pub fn is_only_filler(s: &str, m: &str) -> (r: bool)
    ensures
        r == only_filler(s@, m@),
{
    let n = s.unicode_len();
    let ml = m.unicode_len();
    let mut i: usize = 0;
    proof {
        assert(s@.subrange(0, n as int) == s@);
    }
    while i < n
        invariant
            n == s@.len(),
            ml == m@.len(),
            i <= n,
            only_filler(s@, m@) == only_filler(s@.subrange(i as int, n as int), m@),
        decreases n - i,
    {
        let ghost t = s@.subrange(i as int, n as int);
        proof {
            assert(t[0] == s@[i as int]);
        }
        if char_is_space(s.get_char(i)) {
            proof {
                assert(t.drop_first() == s@.subrange(i + 1, n as int));
            }
            i = i + 1;
        } else if ml > 0 && starts_with_at(s, i, m) {
            proof {
                assert(t.subrange(ml as int, t.len() as int) == s@.subrange(i + ml, n as int));
            }
            i = i + ml;
        } else {
            return false;
        }
    }
    true
}

} // verus!
