//! User identifiers: 128-bit UUID values and their text form.
use vstd::prelude::*;

verus! {

/// The lower-case hex digit of a value below 16.
pub open spec fn hex_digit(n: int) -> char {
    seq!['0', '1', '2', '3', '4', '5', '6', '7', '8', '9', 'a', 'b', 'c', 'd', 'e', 'f'][n]
}

/// The `j`-th hex digit of a 128-bit value, the most significant first.
pub open spec fn nibble(id: u128, j: int) -> int {
    ((id >> ((124 - 4 * j) as u128)) & 15u128) as int
}

/// Which hex digit stands at position `k` of the hyphenated text.
pub open spec fn digit_index(k: int) -> int {
    if k < 8 {
        k
    } else if k < 13 {
        k - 1
    } else if k < 18 {
        k - 2
    } else if k < 23 {
        k - 3
    } else {
        k - 4
    }
}

/// The canonical text of a UUID: 32 lower-case hex digits, the most
/// significant first, in groups of 8-4-4-4-12 joined by hyphens.
pub open spec fn uuid_text(id: u128) -> Seq<char> {
    Seq::new(36, |k: int| if k == 8 || k == 13 || k == 18 || k == 23 {
        '-'
    } else {
        hex_digit(nibble(id, digit_index(k)))
    })
}

/// What parsing a text as a UUID yields.
pub uninterp spec fn uuid_parse(s: Seq<char>) -> Option<u128>;

/// Relies on uuid's `Display` for `Uuid`: the hyphenated lower-case form,
/// 36 characters, which `Uuid::parse_str` reads back to the same value.
#[verifier::external_body]
pub(crate) fn uuid_to_string(id: u128) -> (r: String)
    ensures
        r@ == uuid_text(id),
        uuid_parse(r@) == Some(id),
{
    uuid::Uuid::from_u128(id).to_string()
}

/// Relies on `uuid::Uuid::parse_str`: the value of the text, or an error.
#[verifier::external_body]
pub(crate) fn parse_uuid(s: &str) -> (r: Option<u128>)
    ensures
        r == uuid_parse(s@),
{
    uuid::Uuid::parse_str(s).ok().map(|u| u.as_u128())
}

/// Relies on `uuid::Uuid::new_v4`: a random identifier.
#[verifier::external_body]
pub(crate) fn new_user_id() -> (r: u128) {
    uuid::Uuid::new_v4().as_u128()
}

/// The text form of a user id, as carried in a token's subject.
pub fn user_id_text(id: u128) -> (r: String)
    ensures
        r@ == uuid_text(id),
        uuid_parse(r@) == Some(id),
{
    uuid_to_string(id)
}

/// The user id that a token subject names, if it is a UUID.
pub fn user_id_from_subject(subject: &str) -> (r: Option<u128>)
    ensures
        r == uuid_parse(subject@),
{
    parse_uuid(subject)
}

} // verus!
