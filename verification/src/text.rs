//! Verified text helpers: equality, prefix tests and ASCII-case-insensitive
//! suffix tests over `&str` views.

use vstd::prelude::*;
use vstd::string::*;

verus! {

/// The code point of a character, with an upper-case ASCII letter folded to
/// its lower-case counterpart.
pub open spec fn spec_fold_case(c: char) -> u32 {
    if 65 <= c as u32 && c as u32 <= 90 {
        (c as u32 + 32) as u32
    } else {
        c as u32
    }
}

/// `p` is a prefix of `s`.
pub open spec fn spec_starts_with(s: Seq<char>, p: Seq<char>) -> bool {
    p.len() <= s.len() && forall|i: int| 0 <= i < p.len() ==> s[i] == p[i]
}

/// `suffix` ends `s`, comparing ASCII letters without regard to case.
pub open spec fn spec_ends_with_ci(s: Seq<char>, suffix: Seq<char>) -> bool {
    &&& suffix.len() <= s.len()
    &&& forall|i: int|
        0 <= i < suffix.len() ==> spec_fold_case(s[s.len() - suffix.len() + i])
            == spec_fold_case(suffix[i])
}

/// Two characters are equal once upper-case ASCII letters are folded to
/// lower case.
fn chars_eq_ci(a: char, b: char) -> (r: bool)
    ensures
        r == (spec_fold_case(a) == spec_fold_case(b)),
{
    let x: u32 = a as u32;
    let y: u32 = b as u32;
    let xf: u32 = if 65 <= x && x <= 90 {
        x + 32
    } else {
        x
    };
    let yf: u32 = if 65 <= y && y <= 90 {
        y + 32
    } else {
        y
    };
    xf == yf
}

/// The two strings hold the same characters.
pub fn str_eq(a: &str, b: &str) -> (r: bool)
    ensures
        r == (a@ == b@),
{
    let n = a.unicode_len();
    if n != b.unicode_len() {
        assert(a@ != b@) by {
            assert(a@.len() != b@.len());
        }
        return false;
    }
    let mut i: usize = 0;
    while i < n
        invariant
            i <= n,
            n == a@.len(),
            n == b@.len(),
            forall|j: int| 0 <= j < i ==> a@[j] == b@[j],
        decreases n - i,
    {
        if a.get_char(i) != b.get_char(i) {
            return false;
        }
        i += 1;
    }
    proof {
        assert(a@ =~= b@);
    }
    true
}

/// The string starts with the given prefix.
pub fn starts_with(s: &str, prefix: &str) -> (r: bool)
    ensures
        r == spec_starts_with(s@, prefix@),
{
    let n = s.unicode_len();
    let m = prefix.unicode_len();
    if m > n {
        return false;
    }
    let mut i: usize = 0;
    while i < m
        invariant
            i <= m <= n,
            n == s@.len(),
            m == prefix@.len(),
            forall|j: int| 0 <= j < i ==> s@[j] == prefix@[j],
        decreases m - i,
    {
        if s.get_char(i) != prefix.get_char(i) {
            return false;
        }
        i += 1;
    }
    true
}

/// The string ends with the given suffix, ignoring ASCII case.
pub fn ends_with_ci(s: &str, suffix: &str) -> (r: bool)
    ensures
        r == spec_ends_with_ci(s@, suffix@),
{
    let n = s.unicode_len();
    let m = suffix.unicode_len();
    if m > n {
        return false;
    }
    let mut i: usize = 0;
    while i < m
        invariant
            i <= m <= n,
            n == s@.len(),
            m == suffix@.len(),
            forall|j: int|
                0 <= j < i ==> spec_fold_case(s@[n - m + j]) == spec_fold_case(suffix@[j]),
        decreases m - i,
    {
        if !chars_eq_ci(s.get_char(n - m + i), suffix.get_char(i)) {
            return false;
        }
        i += 1;
    }
    true
}

} // verus!
