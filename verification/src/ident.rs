//! Record identifiers. An identifier is a 128-bit number; on the wire it is
//! the text of a UUID.

use vstd::prelude::*;

verus! {

/// The identifier that a text denotes, where the text is a UUID in one of
/// the forms the `uuid` crate reads.
pub uninterp spec fn uuid_value(text: Seq<char>) -> Option<u128>;

/// The text of an identifier: its UUID in hyphenated lower-case form.
pub uninterp spec fn uuid_text(id: u128) -> Seq<char>;

/// `uuid::Uuid::parse_str`, with the parsed value taken as a number by
/// `Uuid::as_u128`. What it accepts is what `uuid_value` names; a text it
/// rejects gives `None`.
#[verifier::external_body]
pub(crate) fn parse_uuid(text: &str) -> (r: Option<u128>)
    ensures
        r == uuid_value(text@),
{
    match uuid::Uuid::parse_str(text) {
        Ok(id) => Some(id.as_u128()),
        Err(_) => None,
    }
}

/// The `Display` text of `uuid::Uuid::from_u128(id)`: 32 lower-case
/// hexadecimal digits in five groups divided by hyphens.
#[verifier::external_body]
pub(crate) fn render_uuid(id: u128) -> (r: String)
    ensures
        r@ == uuid_text(id),
{
    uuid::Uuid::from_u128(id).to_string()
}

/// `uuid::Uuid::new_v4`: a random identifier. Nothing is promised of its
/// value; in particular it may, with negligible probability, be taken.
#[verifier::external_body]
pub(crate) fn fresh_uuid() -> (r: u128) {
    uuid::Uuid::new_v4().as_u128()
}

/// Reads an identifier from its text.
pub fn parse_id(text: &str) -> (r: Option<u128>)
    ensures
        r == uuid_value(text@),
{
    parse_uuid(text)
}

} // verus!
