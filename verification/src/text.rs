//! Character-level text helpers: ASCII-case-insensitive comparison and
//! Alt-Svc protocol-token detection.

use vstd::prelude::*;

verus! {

/// Two characters are equal up to ASCII case.
pub open spec fn chars_eq_ci(a: char, b: char) -> bool {
    let x = a as u32;
    let y = b as u32;
    x == y || (65 <= x <= 90 && y == x + 32) || (65 <= y <= 90 && x == y + 32)
}

/// Two character sequences are equal up to ASCII case.
pub open spec fn str_eq_ci(a: Seq<char>, b: Seq<char>) -> bool {
    a.len() == b.len() && forall|i: int|
        0 <= i < a.len() ==> #[trigger] chars_eq_ci(a[i], b[i])
}

/// Compares two strings for equality ignoring ASCII case.
pub fn eq_ignore_case(a: &str, b: &str) -> (r: bool)
    ensures
        r == str_eq_ci(a@, b@),
{
    let alen = a.unicode_len();
    let blen = b.unicode_len();
    if alen != blen {
        return false;
    }
    let mut i: usize = 0;
    while i < alen
        invariant
            i <= alen,
            alen == a@.len(),
            alen == b@.len(),
            forall|j: int| 0 <= j < i ==> #[trigger] chars_eq_ci(a@[j], b@[j]),
        decreases alen - i,
    {
        let x = a.get_char(i) as u32;
        let y = b.get_char(i) as u32;
        let same = x == y || (65 <= x && x <= 90 && y == x + 32) || (65 <= y && y <= 90 && x == y
            + 32);
        if !same {
            assert(!chars_eq_ci(a@[i as int], b@[i as int]));
            return false;
        }
        i = i + 1;
    }
    true
}

/// Case-insensitive equality is symmetric.
pub proof fn lemma_str_eq_ci_sym(a: Seq<char>, b: Seq<char>)
    ensures
        str_eq_ci(a, b) == str_eq_ci(b, a),
{
    if str_eq_ci(a, b) {
        assert forall|i: int| 0 <= i < b.len() implies #[trigger] chars_eq_ci(b[i], a[i]) by {
            assert(chars_eq_ci(a[i], b[i]));
        }
    }
    if str_eq_ci(b, a) {
        assert forall|i: int| 0 <= i < a.len() implies #[trigger] chars_eq_ci(a[i], b[i]) by {
            assert(chars_eq_ci(b[i], a[i]));
        }
    }
}

/// Case-insensitive equality is transitive.
pub proof fn lemma_str_eq_ci_trans(a: Seq<char>, b: Seq<char>, c: Seq<char>)
    requires
        str_eq_ci(a, b),
        str_eq_ci(b, c),
    ensures
        str_eq_ci(a, c),
{
    assert forall|i: int| 0 <= i < a.len() implies #[trigger] chars_eq_ci(a[i], c[i]) by {
        assert(chars_eq_ci(a[i], b[i]));
        assert(chars_eq_ci(b[i], c[i]));
    }
}

/// An `h3` entry of an Alt-Svc header value starts at position `i`: the two
/// characters `h3` followed by `=`, at the start of the value or right after
/// a list delimiter, so that longer protocol identifiers such as `h3-29` do
/// not count.
pub open spec fn h3_token_at(s: Seq<char>, i: int) -> bool {
    &&& 0 <= i
    &&& i + 3 <= s.len()
    &&& s[i] == 'h'
    &&& s[i + 1] == '3'
    &&& s[i + 2] == '='
    &&& (i == 0 || s[i - 1] == ',' || s[i - 1] == ' ' || s[i - 1] == '\t')
}

/// The token set of an Alt-Svc header value contains the protocol
/// identifier `h3`.
pub open spec fn has_h3_token(s: Seq<char>) -> bool {
    exists|i: int| h3_token_at(s, i)
}

/// Scans an Alt-Svc header value for an `h3` protocol token.
pub fn contains_h3_token(s: &str) -> (r: bool)
    ensures
        r == has_h3_token(s@),
{
    let n = s.unicode_len();
    if n < 3 {
        assert(forall|i: int| !h3_token_at(s@, i));
        return false;
    }
    let mut i: usize = 0;
    while i <= n - 3
        invariant
            n == s@.len(),
            3 <= n,
            i <= n - 2,
            forall|j: int| 0 <= j < i ==> !h3_token_at(s@, j),
        decreases n - i,
    {
        if s.get_char(i) == 'h' && s.get_char(i + 1) == '3' && s.get_char(i + 2) == '=' {
            let delimited = i == 0 || {
                let p = s.get_char(i - 1);
                p == ',' || p == ' ' || p == '\t'
            };
            if delimited {
                assert(h3_token_at(s@, i as int));
                return true;
            }
        }
        assert(!h3_token_at(s@, i as int));
        i = i + 1;
    }
    assert(forall|j: int| i <= j ==> !h3_token_at(s@, j));
    false
}

} // verus!
