//! Identifiers: random 128-bit values, written as UUID text.

use vstd::prelude::*;

verus! {

/// The hyphenated lower-case text of a UUID, as `uuid` writes it.
pub uninterp spec fn uuid_text(value: u128) -> Seq<char>;

/// The value of a UUID text, as `uuid` parses it; `None` where it is no UUID.
pub uninterp spec fn uuid_value(text: Seq<char>) -> Option<u128>;

/// Calls `uuid::Uuid::new_v4` and gives the value with `as_u128`. The value is
/// random: nothing is promised of it.
#[verifier::external_body]
pub(crate) fn random_uuid() -> u128 {
    uuid::Uuid::new_v4().as_u128()
}

/// Calls `uuid::Uuid::from_u128` and writes the UUID with `to_string`. The
/// text is named `uuid_text`; `uuid::Uuid::parse_str` reads the value back
/// from it.
#[verifier::external_body]
pub(crate) fn format_uuid(value: u128) -> (text: String)
    ensures
        text@ == uuid_text(value),
        uuid_value(text@) == Some(value),
{
    uuid::Uuid::from_u128(value).to_string()
}

/// Calls `uuid::Uuid::parse_str` and gives the value with `as_u128`. The
/// value is named `uuid_value`.
#[verifier::external_body]
pub(crate) fn parse_uuid(text: &str) -> (value: Option<u128>)
    ensures
        value == uuid_value(text@),
{
    match uuid::Uuid::parse_str(text) {
        Ok(id) => Some(id.as_u128()),
        Err(_) => None,
    }
}

} // verus!
