//! Verified helpers over strings: equality, substring containment, and
//! single-character replacement, together with the spec functions that the
//! rest of the crate states its contracts with.

use vstd::prelude::*;

verus! {

/// True when `needle` occurs as a contiguous subsequence of `hay`.
pub open spec fn contains_seq(hay: Seq<char>, needle: Seq<char>) -> bool {
    exists|i: int|
        0 <= i && i + needle.len() <= hay.len() && #[trigger] hay.subrange(i, i + needle.len())
            == needle
}

/// `s` with every occurrence of the character `from` replaced by `to`.
pub open spec fn replace_char_seq(s: Seq<char>, from: char, to: char) -> Seq<char> {
    s.map_values(|c: char| if c == from { to } else { c })
}

/// Character-wise equality of two string slices.
pub fn str_eq(a: &str, b: &str) -> (r: bool)
    ensures
        r == (a@ == b@),
{
    let sa = a.to_owned();
    let sb = b.to_owned();
    sa == sb
}

/// Whether `needle` occurs as a contiguous substring of `hay`, by characters.
pub fn contains_substr(hay: &str, needle: &str) -> (r: bool)
    ensures
        r == contains_seq(hay@, needle@),
{
    let n = hay.unicode_len();
    let m = needle.unicode_len();
    if m > n {
        return false;
    }
    if m == 0 {
        proof {
            assert(hay@.subrange(0, 0 + needle@.len() as int) =~= needle@);
        }
        return true;
    }
    let mut i: usize = 0;
    loop
        invariant
            0 <= i <= n - m + 1,
            n == hay@.len(),
            m == needle@.len(),
            1 <= m <= n,
            forall|j: int|
                0 <= j < i ==> #[trigger] hay@.subrange(j, j + needle@.len()) != needle@,
        decreases n - m + 1 - i,
    {
        if i > n - m {
            return false;
        }
        if match_at(hay, needle, i) {
            return true;
        }
        i = i + 1;
    }
}

/// Whether `needle` matches `hay` starting at character position `at`.
fn match_at(hay: &str, needle: &str, at: usize) -> (r: bool)
    requires
        at + needle@.len() <= hay@.len(),
    ensures
        r == (hay@.subrange(at as int, at + needle@.len()) == needle@),
{
    let n = hay.unicode_len();
    let m = needle.unicode_len();
    let mut k: usize = 0;
    while k < m
        invariant
            0 <= k <= m,
            m == needle@.len(),
            n == hay@.len(),
            at + m <= n,
            forall|t: int| 0 <= t < k ==> hay@[at + t] == needle@[t],
        decreases m - k,
    {
        if hay.get_char(at + k) != needle.get_char(k) {
            proof {
                let sub = hay@.subrange(at as int, at + needle@.len());
                assert(sub[k as int] == hay@[at + k]);
            }
            return false;
        }
        k = k + 1;
    }
    proof {
        assert(hay@.subrange(at as int, at + needle@.len()) =~= needle@);
    }
    true
}

/// `s` with every occurrence of the character `from` replaced by the single
/// character in `to`.
pub fn replace_char(s: &str, from: char, to: &str) -> (r: String)
    requires
        to@.len() == 1,
    ensures
        r@ == replace_char_seq(s@, from, to@[0]),
{
    let ghost t: char = to@[0];
    let n = s.unicode_len();
    let mut r = String::new();
    let mut i: usize = 0;
    while i < n
        invariant
            0 <= i <= n,
            n == s@.len(),
            to@ =~= seq![t],
            r@ == replace_char_seq(s@.subrange(0, i as int), from, t),
        decreases n - i,
    {
        let c = s.get_char(i);
        let ghost prev = r@;
        if c == from {
            r.append(to);
            proof {
                assert(r@ =~= prev.push(if s@[i as int] == from {
                    t
                } else {
                    s@[i as int]
                }));
            }
        } else {
            let piece = s.substring_char(i, i + 1);
            r.append(piece);
            proof {
                assert(piece@ =~= seq![s@[i as int]]);
                assert(r@ =~= prev.push(if s@[i as int] == from {
                    t
                } else {
                    s@[i as int]
                }));
            }
        }
        proof {
            assert(replace_char_seq(s@.subrange(0, i + 1), from, t) =~= replace_char_seq(
                s@.subrange(0, i as int),
                from,
                t,
            ).push(if s@[i as int] == from {
                t
            } else {
                s@[i as int]
            }));
        }
        i = i + 1;
    }
    proof {
        assert(s@.subrange(0, n as int) =~= s@);
    }
    r
}

/// The sequence of characters that `str::to_lowercase` yields for `s`.
/// Unicode case mapping is too large to state here, so the result is only
/// given this name; it is a function of the characters of `s` alone.
pub uninterp spec fn lower_of(s: Seq<char>) -> Seq<char>;

/// True when no character of `s` is an ASCII uppercase letter and every
/// character is plain ASCII. Lowercasing such a string changes nothing.
pub open spec fn ascii_no_upper(s: Seq<char>) -> bool {
    forall|i: int|
        0 <= i < s.len() ==> (#[trigger] s[i] as u32) < 128 && !(('A' as u32) <= (s[i] as u32)
            <= ('Z' as u32))
}

/// Relies on str::to_lowercase: the result is the Unicode lowercase
/// equivalent of `s`, a function of the characters of `s` alone; ASCII
/// characters other than uppercase letters are left unchanged.
#[verifier::external_body]
pub(crate) fn lowercase(s: &str) -> (r: String)
    ensures
        r@ == lower_of(s@),
        ascii_no_upper(s@) ==> r@ == s@,
{
    s.to_lowercase()
}

} // verus!
