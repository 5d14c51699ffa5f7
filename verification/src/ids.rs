//! Identifiers: fresh random ids and the text form of ids.
use vstd::prelude::*;

verus! {

/// Calls `Uuid::new_v4` and writes the id in its hyphenated form. The id is random, so only
/// its length, which the `uuid` documentation fixes at 36 characters, is stated.
#[verifier::external_body]
pub(crate) fn new_uuid() -> (r: String)
    ensures
        r@.len() == 36,
{
    uuid::Uuid::new_v4().to_string()
}

/// The lowercase hexadecimal digit of a value below 16.
pub open spec fn hex_digit(n: u128) -> char {
    if n < 10 {
        (48 + n) as char
    } else {
        (87 + n) as char
    }
}

/// The `k`-th hexadecimal digit of a 128-bit id, counted from the most significant.
pub open spec fn nibble(bits: u128, k: int) -> u128 {
    (bits >> ((124 - 4 * k) as u128)) & 15
}

/// Where the `i`-th character of the hyphenated form takes its digit from.
pub open spec fn digit_at(i: int) -> int {
    if i < 8 {
        i
    } else if i < 13 {
        i - 1
    } else if i < 18 {
        i - 2
    } else if i < 23 {
        i - 3
    } else {
        i - 4
    }
}

/// The hyphenated lowercase form of an id: its 32 hexadecimal digits, most significant
/// first, in groups of 8, 4, 4, 4 and 12 joined by `-`.
pub open spec fn uuid_text(bits: u128) -> Seq<char> {
    Seq::new(
        36,
        |i: int|
            if i == 8 || i == 13 || i == 18 || i == 23 {
                '-'
            } else {
                hex_digit(nibble(bits, digit_at(i)))
            },
    )
}

/// Calls `Uuid::from_u128` and `to_string`: `from_u128` takes the value's big-endian
/// bytes, and `to_string` writes the hyphenated lowercase form ([`uuid_text`]).
#[verifier::external_body]
pub(crate) fn uuid_to_string(bits: u128) -> (r: String)
    ensures
        r@ == uuid_text(bits),
        r@.len() == 36,
{
    uuid::Uuid::from_u128(bits).to_string()
}

/// What `Uuid::parse_str` reads from a text: the 128 bits of the id, or `None` where the text
/// is not an id in one of the forms that the crate accepts.
pub uninterp spec fn uuid_parse(text: Seq<char>) -> Option<u128>;

/// Calls `Uuid::parse_str`; the result is named by [`uuid_parse`]. The contract also states
/// that the hyphenated form that `to_string` writes ([`uuid_text`]) parses back to its id.
#[verifier::external_body]
pub(crate) fn parse_uuid(text: &str) -> (r: Option<u128>)
    ensures
        r == uuid_parse(text@),
        forall|bits: u128| text@ == #[trigger] uuid_text(bits) ==> r == Some(bits),
{
    match uuid::Uuid::parse_str(text) {
        Ok(id) => Some(id.as_u128()),
        Err(_) => None,
    }
}


/// The 16 octets of an id, most significant first.
pub open spec fn uuid_octets(bits: u128) -> Seq<u8> {
    Seq::new(16, |i: int| ((bits >> ((120 - 8 * i) as u128)) & 255) as u8)
}

/// Calls `Uuid::from_u128` and `as_bytes`: `from_u128` keeps the value's big-endian bytes,
/// which `as_bytes` hands back ([`uuid_octets`]).
#[verifier::external_body]
pub(crate) fn uuid_bytes(bits: u128) -> (r: Vec<u8>)
    ensures
        r@ == uuid_octets(bits),
        r@.len() == 16,
{
    uuid::Uuid::from_u128(bits).as_bytes().to_vec()
}

} // verus!
