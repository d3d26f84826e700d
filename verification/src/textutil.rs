//! Shared text helpers: equality, prefix tests, and the whitespace and
//! case normalization used on security answers, together with their
//! character-level specifications.

use vstd::prelude::*;

verus! {

/// One character lowered ASCII-wise: `A`..`Z` map to `a`..`z`, everything
/// else is untouched.
pub open spec fn ascii_lower_char(c: char) -> char {
    if 'A' <= c && c <= 'Z' {
        (((c as u32) + 32) as u32) as char
    } else {
        c
    }
}

/// A string lowered ASCII-wise, character by character.
pub open spec fn ascii_lower(s: Seq<char>) -> Seq<char> {
    s.map_values(|c: char| ascii_lower_char(c))
}

/// Whether `p` is a prefix of `s`.
pub open spec fn has_prefix(s: Seq<char>, p: Seq<char>) -> bool {
    p.len() <= s.len() && s.subrange(0, p.len() as int) == p
}

/// Whether a character has the Unicode White_Space property — the set
/// `str::trim` strips from both ends.
pub open spec fn is_unicode_whitespace(c: char) -> bool {
    ||| ('\u{0009}' <= c && c <= '\u{000D}')
    ||| c == ' '
    ||| c == '\u{0085}'
    ||| c == '\u{00A0}'
    ||| c == '\u{1680}'
    ||| ('\u{2000}' <= c && c <= '\u{200A}')
    ||| c == '\u{2028}'
    ||| c == '\u{2029}'
    ||| c == '\u{202F}'
    ||| c == '\u{205F}'
    ||| c == '\u{3000}'
}

/// Where the leading whitespace run ends, scanning from `i`.
pub open spec fn trim_start_at(s: Seq<char>, i: int) -> int
    decreases s.len() - i when 0 <= i <= s.len()
{
    if i >= s.len() {
        s.len() as int
    } else if is_unicode_whitespace(s[i]) {
        trim_start_at(s, i + 1)
    } else {
        i
    }
}

/// Where the trailing whitespace run begins, scanning back from `i`.
pub open spec fn trim_end_at(s: Seq<char>, i: int) -> int
    decreases i when 0 <= i <= s.len()
{
    if i <= 0 {
        0
    } else if is_unicode_whitespace(s[i - 1]) {
        trim_end_at(s, i - 1)
    } else {
        i
    }
}

/// `s` with leading and trailing whitespace removed: everything between
/// the first and the last character without the White_Space property.
pub open spec fn trim_of(s: Seq<char>) -> Seq<char> {
    let start = trim_start_at(s, 0);
    let end = trim_end_at(s, s.len() as int);
    if start <= end {
        s.subrange(start, end)
    } else {
        Seq::empty()
    }
}

/// `s` lowercased by the full Unicode rules: a deterministic function of
/// the string, computed by the standard library.
pub uninterp spec fn lower_of(s: Seq<char>) -> Seq<char>;

/// Relies on str's `==` (core::cmp::PartialEq::eq): equality of the two
/// strings' characters.
#[verifier::external_body]
pub fn str_eq(a: &str, b: &str) -> (r: bool)
    ensures
        r == (a@ == b@),
{
    a == b
}

/// Relies on str::trim: it strips exactly the leading and trailing
/// characters with the Unicode White_Space property, as `trim_of`
/// states.
#[verifier::external_body]
pub fn str_trim(s: &str) -> (r: &str)
    ensures
        r@ == trim_of(s@),
{
    s.trim()
}

/// Relies on str::to_lowercase: the result depends on the characters
/// alone, and an empty string stays empty.
#[verifier::external_body]
pub fn str_lowercase(s: &str) -> (r: String)
    ensures
        r@ == lower_of(s@),
        s@.len() == 0 ==> r@.len() == 0,
{
    s.to_lowercase()
}

/// Relies on str::eq_ignore_ascii_case: whether the two strings are equal
/// once both are lowered ASCII-wise, character by character.
#[verifier::external_body]
pub fn str_eq_ignore_ascii_case(a: &str, b: &str) -> (r: bool)
    ensures
        r == (ascii_lower(a@) == ascii_lower(b@)),
{
    a.eq_ignore_ascii_case(b)
}

/// Relies on str::starts_with: whether `p` is a prefix of `s`.
#[verifier::external_body]
pub fn str_starts_with(s: &str, p: &str) -> (r: bool)
    ensures
        r == has_prefix(s@, p@),
{
    s.starts_with(p)
}

/// The normal form of a security answer before hashing or comparison:
/// trimmed, then lowercased.
pub open spec fn normalized_answer(s: Seq<char>) -> Seq<char> {
    lower_of(trim_of(s))
}

/// Normalize a security answer: trim whitespace, then lowercase.
pub fn normalize_answer(s: &str) -> (r: String)
    ensures
        r@ == normalized_answer(s@),
{
    str_lowercase(str_trim(s))
}

} // verus!
