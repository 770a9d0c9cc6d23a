//! URL text: percent-encoding of query values and building redirect targets.

use vstd::prelude::*;
use vstd::string::StringSliceAdditionalSpecFns;
use vstd::utf8::encode_utf8;

verus! {

/// The bytes that percent-encoding leaves as they are.
pub open spec fn is_unreserved(b: u8) -> bool {
    ||| (48 <= b && b <= 57)
    ||| (65 <= b && b <= 90)
    ||| (97 <= b && b <= 122)
    ||| b == 45 || b == 46 || b == 95 || b == 126
}

/// An upper-case hexadecimal digit.
pub open spec fn upper_hex_digit(d: int) -> char {
    seq!['0', '1', '2', '3', '4', '5', '6', '7', '8', '9', 'A', 'B', 'C', 'D', 'E', 'F'][d]
}

/// Percent-encoding of a byte string: every byte but the unreserved ones
/// becomes `%` and two upper-case hexadecimal digits.
pub open spec fn percent_encoded(bytes: Seq<u8>) -> Seq<char>
    decreases bytes.len(),
{
    if bytes.len() == 0 {
        seq![]
    } else {
        let b = bytes[0];
        let head = if is_unreserved(b) {
            seq![b as char]
        } else {
            seq!['%', upper_hex_digit(b as int / 16), upper_hex_digit(b as int % 16)]
        };
        head + percent_encoded(bytes.drop_first())
    }
}

/// Percent-encodes the UTF-8 bytes of `s` with `urlencoding::encode`.
///
/// Trusted: the contract restates the crate's documented behaviour: every
/// byte except ASCII alphanumerics and `-`, `_`, `.`, `~` is encoded, in
/// upper-case hexadecimal.
#[verifier::external_body]
pub(crate) fn url_encode(s: &str) -> (r: String)
    ensures
        r@ == percent_encoded(s.spec_bytes()),
{
    urlencoding::encode(s).into_owned()
}

/// What `url::Url::parse` makes of a text: `None` where it refuses it,
/// else the serialization of the parsed URL (`Url::as_str`).
pub uninterp spec fn parsed_url(s: Seq<char>) -> Option<Seq<char>>;

/// The bytes that form-urlencoding leaves as they are.
pub open spec fn form_unchanged(b: u8) -> bool {
    ||| (48 <= b && b <= 57)
    ||| (65 <= b && b <= 90)
    ||| (97 <= b && b <= 122)
    ||| b == 42 || b == 45 || b == 46 || b == 95
}

/// `application/x-www-form-urlencoded` serialization of a byte string: a
/// space becomes `+`, the unchanged bytes stay, every other byte becomes
/// `%` and two upper-case hexadecimal digits.
pub open spec fn form_encoded(bytes: Seq<u8>) -> Seq<char>
    decreases bytes.len(),
{
    if bytes.len() == 0 {
        seq![]
    } else {
        let b = bytes[0];
        let head = if form_unchanged(b) {
            seq![b as char]
        } else if b == 32 {
            seq!['+']
        } else {
            seq!['%', upper_hex_digit(b as int / 16), upper_hex_digit(b as int % 16)]
        };
        head + form_encoded(bytes.drop_first())
    }
}

/// `i` is the first position of `c` in `s`.
pub open spec fn first_at(s: Seq<char>, c: char, i: int) -> bool {
    &&& 0 <= i < s.len()
    &&& s[i] == c
    &&& forall|j: int| 0 <= j < i ==> s[j] != c
}

/// A URL's serialization before its fragment, and the fragment with its `#`.
pub open spec fn split_fragment(url: Seq<char>) -> (Seq<char>, Seq<char>) {
    if exists|i: int| first_at(url, '#', i) {
        let i = choose|i: int| first_at(url, '#', i);
        (url.take(i), url.skip(i))
    } else {
        (url, seq![])
    }
}

/// What goes before a new pair: `?` where the URL has no query, `&` where
/// its query is not empty, nothing after an empty query.
pub open spec fn pair_separator(head: Seq<char>) -> Seq<char> {
    if exists|i: int| first_at(head, '?', i) {
        let i = choose|i: int| first_at(head, '?', i);
        if i + 1 < head.len() {
            seq!['&']
        } else {
            seq![]
        }
    } else {
        seq!['?']
    }
}

/// The serialization of the URL serialized as `url` after
/// `query_pairs_mut().append_pair(key, value)`: the pair is form-encoded
/// and placed at the end of the query, before the fragment. In a URL's
/// serialization the first `#` starts the fragment and the first `?`
/// before it starts the query, since both are percent-encoded everywhere
/// else before them.
pub open spec fn with_query_pair(url: Seq<char>, key: Seq<char>, value: Seq<char>) -> Seq<char> {
    let (head, fragment) = split_fragment(url);
    head + pair_separator(head) + form_encoded(encode_utf8(key)) + seq!['='] + form_encoded(encode_utf8(value))
        + fragment
}

/// Parses an absolute URL with `url::Url::parse` and gives back its
/// serialization.
///
/// Trusted: the result is named `parsed_url(s@)`. The serialization of a
/// parsed URL parses again to the same serialization, as the crate's own
/// invariant check (`Url::check_invariants`) asserts.
#[verifier::external_body]
pub(crate) fn parse_url(s: &str) -> (r: Option<String>)
    ensures
        r is Some <==> parsed_url(s@) is Some,
        r matches Some(t) ==> parsed_url(s@) == Some(t@) && parsed_url(t@) == Some(t@),
{
    url::Url::parse(s).ok().map(|u| u.as_str().to_string())
}

/// Appends the pair `key=value` to the query of the URL serialized as `url`
/// with `query_pairs_mut().append_pair`, and gives back the new
/// serialization.
///
/// Trusted: the result is `with_query_pair(url@, key@, value@)`, as
/// `query_pairs_mut` (which takes the fragment off, adds `?` where there is
/// no query, and puts the fragment back) and form_urlencoded's
/// `append_pair` (which adds `&` after a non-empty query) write it; like
/// every serialization of a URL, it parses again to itself. The text is a
/// serialization, so parsing it back cannot fail.
#[verifier::external_body]
pub(crate) fn append_query_pair(url: &str, key: &str, value: &str) -> (r: String)
    requires
        parsed_url(url@) == Some(url@),
    ensures
        r@ == with_query_pair(url@, key@, value@),
        parsed_url(r@) == Some(r@),
{
    let mut parsed = url::Url::parse(url).expect("a serialized URL parses");
    parsed.query_pairs_mut().append_pair(key, value);
    parsed.as_str().to_string()
}

} // verus!
