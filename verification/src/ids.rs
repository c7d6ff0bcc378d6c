//! Record identifiers.
//!
//! An identifier is a 128-bit number. Its text form, and the parsing of text
//! into an identifier, are those of the `uuid` crate.

use vstd::prelude::*;

verus! {

/// The hyphenated lower-case text of an identifier, as `uuid::Uuid` displays it.
pub uninterp spec fn uuid_text(id: u128) -> Seq<char>;

/// The identifier that a text denotes, if it denotes one, as
/// `uuid::Uuid::parse_str` reads it.
pub uninterp spec fn uuid_parsed(text: Seq<char>) -> Option<u128>;

/// Trusted: `uuid::Uuid::from_u128` followed by the `Display` form. The text is
/// named by `uuid_text`; it has 36 characters, and parsing it gives the
/// identifier back.
#[verifier::external_body]
pub(crate) fn uuid_to_text(id: u128) -> (r: String)
    ensures
        r@ == uuid_text(id),
        r@.len() == 36,
        uuid_parsed(r@) == Some(id),
{
    uuid::Uuid::from_u128(id).to_string()
}

/// Trusted: `uuid::Uuid::parse_str`, with the parsed value taken as a number.
#[verifier::external_body]
pub(crate) fn uuid_from_text(text: &str) -> (r: Option<u128>)
    ensures
        r == uuid_parsed(text@),
{
    match uuid::Uuid::parse_str(text) {
        Ok(id) => Some(id.as_u128()),
        Err(_) => None,
    }
}

/// Trusted: `uuid::Uuid::new_v4`. The value is random, so nothing is promised
/// of it.
#[verifier::external_body]
pub(crate) fn fresh_uuid() -> u128 {
    uuid::Uuid::new_v4().as_u128()
}

} // verus!
