//! Character-level helpers shared by the name matching rules.

use vstd::prelude::*;

verus! {

/// Unicode lower-casing of a string, as performed by the standard library.
pub uninterp spec fn lowercased(s: Seq<char>) -> Seq<char>;

/// Whether every character of `s` is ASCII.
pub open spec fn is_ascii_text(s: Seq<char>) -> bool {
    forall|i: int| 0 <= i < s.len() ==> (#[trigger] s[i] as u32) < 128
}

/// An ASCII upper-case letter becomes its lower-case letter; every other
/// character is kept.
pub open spec fn ascii_lower_char(c: char) -> char {
    if 'A' <= c && c <= 'Z' {
        ((c as u32) + 32) as char
    } else {
        c
    }
}

/// An ASCII lower-case letter becomes its upper-case letter; every other
/// character is kept.
pub open spec fn ascii_upper_char(c: char) -> char {
    if 'a' <= c && c <= 'z' {
        ((c as u32) - 32) as char
    } else {
        c
    }
}

pub open spec fn ascii_lowercase(s: Seq<char>) -> Seq<char> {
    s.map_values(|c: char| ascii_lower_char(c))
}

pub open spec fn ascii_uppercase(s: Seq<char>) -> Seq<char> {
    s.map_values(|c: char| ascii_upper_char(c))
}

/// The lower-cased text: on ASCII text the Unicode mapping only turns
/// `A`-`Z` into `a`-`z`.
pub open spec fn lower_text(s: Seq<char>) -> Seq<char> {
    if is_ascii_text(s) {
        ascii_lowercase(s)
    } else {
        lowercased(s)
    }
}

/// Lower-cases `s` with `str::to_lowercase`.
///
/// Trusted: the result is named `lowercased(s@)` where `s` has a character
/// outside ASCII; the Unicode case tables are not restated. On ASCII text
/// the documented Unicode mapping turns `A`-`Z` into `a`-`z` and keeps
/// every other character, which is stated.
#[verifier::external_body]
pub(crate) fn to_lowercase(s: &str) -> (r: String)
    ensures
        r@ == lower_text(s@),
        !is_ascii_text(s@) ==> r@ == lowercased(s@),
{
    s.to_lowercase()
}

/// Collects the characters of `s`, in order.
pub fn chars_of(s: &str) -> (r: Vec<char>)
    ensures
        r@ == s@,
{
    let mut out: Vec<char> = Vec::new();
    for c in it: s.chars()
        invariant
            out@ == it.seq().take(it.index() as int),
            it.seq() == s@,
    {
        out.push(c);
    }
    out
}

} // verus!
