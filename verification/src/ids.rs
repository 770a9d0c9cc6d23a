//! Entity identifiers (UUIDs held as 128-bit integers) and timestamps.

use vstd::prelude::*;

use crate::text::ascii_lowercase;

verus! {

/// The nil identifier, which a client sends for an entity that does not
/// exist yet.
pub const NIL_ID: u128 = 0;

/// A lower-case hexadecimal digit.
pub open spec fn lower_hex_digit(d: nat) -> char {
    seq!['0', '1', '2', '3', '4', '5', '6', '7', '8', '9', 'a', 'b', 'c', 'd', 'e', 'f'][d as int]
}

/// The last `n` hexadecimal digits of `v`, most significant first.
pub open spec fn hex_digits(v: nat, n: nat) -> Seq<char>
    decreases n,
{
    if n == 0 {
        seq![]
    } else {
        hex_digits(v / 16, (n - 1) as nat).push(lower_hex_digit(v % 16))
    }
}

/// The hyphenated lower-case text of a UUID: 8-4-4-4-12 hex digits.
pub open spec fn hyphenated(id: u128) -> Seq<char> {
    let h = hex_digits(id as nat, 32);
    h.subrange(0, 8) + seq!['-'] + h.subrange(8, 12) + seq!['-'] + h.subrange(12, 16) + seq!['-']
        + h.subrange(16, 20) + seq!['-'] + h.subrange(20, 32)
}

/// A version-4 UUID: its version nibble is 4 and its variant bits are `10`.
pub open spec fn is_random_uuid(id: u128) -> bool {
    &&& (id >> 76u128) & 0xfu128 == 4u128
    &&& (id >> 62u128) & 0x3u128 == 2u128
}

/// The value of a hexadecimal digit, in either case.
pub open spec fn hex_digit_value(c: char) -> Option<nat> {
    if '0' <= c && c <= '9' {
        Some((c as nat - '0' as nat) as nat)
    } else if 'a' <= c && c <= 'f' {
        Some((c as nat - 'a' as nat + 10) as nat)
    } else if 'A' <= c && c <= 'F' {
        Some((c as nat - 'A' as nat + 10) as nat)
    } else {
        None
    }
}

/// The number that a run of hexadecimal digits writes, most significant
/// digit first.
pub open spec fn hex_number(s: Seq<char>) -> nat
    decreases s.len(),
{
    if s.len() == 0 {
        0
    } else {
        hex_number(s.drop_last()) * 16 + hex_digit_value(s.last()).unwrap_or(0)
    }
}

/// Thirty-two hexadecimal digits.
pub open spec fn simple_uuid(s: Seq<char>) -> Option<u128> {
    if s.len() == 32 && forall|i: int| 0 <= i < 32 ==> #[trigger] hex_digit_value(s[i]) is Some {
        Some(hex_number(s) as u128)
    } else {
        None
    }
}

/// The 8-4-4-4-12 form: hyphens at 8, 13, 18 and 23, hex digits elsewhere.
pub open spec fn hyphenated_uuid(s: Seq<char>) -> Option<u128> {
    if s.len() == 36 && s[8] == '-' && s[13] == '-' && s[18] == '-' && s[23] == '-' {
        simple_uuid(
            s.subrange(0, 8) + s.subrange(9, 13) + s.subrange(14, 18) + s.subrange(19, 23) + s.subrange(24, 36),
        )
    } else {
        None
    }
}

/// What `uuid::Uuid::parse_str` accepts, and the identifier it reads: the
/// simple form, the hyphenated form, the hyphenated form in braces, or the
/// hyphenated form after `urn:uuid:` in any case.
pub open spec fn uuid_text_value(s: Seq<char>) -> Option<u128> {
    if s.len() == 32 {
        simple_uuid(s)
    } else if s.len() == 36 {
        hyphenated_uuid(s)
    } else if s.len() == 38 && s[0] == '{' && s[37] == '}' {
        hyphenated_uuid(s.subrange(1, 37))
    } else if s.len() == 45 && ascii_lowercase(s.take(9)) == "urn:uuid:"@ {
        hyphenated_uuid(s.skip(9))
    } else {
        None
    }
}

/// A fresh random identifier from `uuid::Uuid::new_v4`.
///
/// Trusted: the result is random; the contract states only what `new_v4`
/// fixes of every outcome, the version and variant bits.
#[verifier::external_body]
pub(crate) fn new_id() -> (r: u128)
    ensures
        is_random_uuid(r),
{
    uuid::Uuid::new_v4().as_u128()
}

/// The current time from `chrono::Utc::now`, as whole seconds since the
/// Unix epoch (`timestamp`) and the nanoseconds past them
/// (`timestamp_subsec_nanos`).
///
/// Trusted: the time depends on the clock; only the documented range of the
/// nanoseconds, below two billion (a leap second reaches past one), is
/// stated.
#[verifier::external_body]
fn clock_now() -> (r: (i64, u32))
    ensures
        r.1 < 2_000_000_000,
{
    let now = chrono::Utc::now();
    (now.timestamp(), now.timestamp_subsec_nanos())
}

/// A point in time as nanoseconds since the Unix epoch.
pub open spec fn nanos_since_epoch(secs: i64, subsec_nanos: u32) -> int {
    secs * 1_000_000_000 + subsec_nanos
}

/// The current time, in nanoseconds since the Unix epoch.
pub(crate) fn now_nanos() -> (r: i128)
    ensures
        exists|secs: i64, subsec: u32| subsec < 2_000_000_000 && r == #[trigger] nanos_since_epoch(secs, subsec),
{
    let (secs, subsec) = clock_now();
    assert(-9_223_372_036_854_775_808 * 1_000_000_000 <= secs * 1_000_000_000 <= 9_223_372_036_854_775_807 * 1_000_000_000)
        by (nonlinear_arith)
        requires
            -9_223_372_036_854_775_808 <= secs <= 9_223_372_036_854_775_807,
    ;
    let r = (secs as i128) * 1_000_000_000 + (subsec as i128);
    assert(r == nanos_since_epoch(secs, subsec));
    r
}

/// The text of an identifier, as `uuid::Uuid`'s `Display` writes it.
///
/// Trusted: `Display` for `Uuid` writes the hyphenated lower-case form.
#[verifier::external_body]
pub(crate) fn id_text(id: u128) -> (r: String)
    ensures
        r@ == hyphenated(id),
{
    uuid::Uuid::from_u128(id).to_string()
}

/// Parses an identifier with `uuid::Uuid::parse_str`.
///
/// Trusted: the accepted forms and the big-endian reading of the digits
/// are those of the crate's parser (`parser.rs`, `try_parse`).
#[verifier::external_body]
pub(crate) fn parse_id(s: &str) -> (r: Option<u128>)
    ensures
        r == uuid_text_value(s@),
{
    match uuid::Uuid::parse_str(s) {
        Ok(u) => Some(u.as_u128()),
        Err(_) => None,
    }
}

/// A random identifier is never the nil identifier.
pub proof fn random_uuid_is_not_nil(id: u128)
    requires
        is_random_uuid(id),
    ensures
        id != NIL_ID,
{
    assert((id >> 76u128) & 0xfu128 == 4u128 ==> id != 0u128) by (bit_vector);
}

} // verus!
