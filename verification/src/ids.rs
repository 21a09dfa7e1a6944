//! Identifiers: organization and user UUIDs held as 128-bit integers, and
//! the `uuid` crate calls that read and write their text.

use vstd::prelude::*;
use crate::text::{hex_lower, lemma_hex_lower_len};

verus! {

/// What `uuid::Uuid::parse_str` gives for a text: the UUID as an integer, or
/// the text of its error.
pub uninterp spec fn uuid_parse(s: Seq<char>) -> Result<u128, Seq<char>>;

/// `uuid::Uuid::parse_str`, the UUID taken as `as_u128` and the error as its
/// `Display` text.
#[verifier::external_body]
pub(crate) fn parse_uuid(s: &str) -> (r: Result<u128, String>)
    ensures
        uuid_parse(s@) == (match r {
            Ok(v) => Ok::<u128, Seq<char>>(v),
            Err(e) => Err::<u128, Seq<char>>(e@),
        }),
{
    match uuid::Uuid::parse_str(s) {
        Ok(u) => Ok(u.as_u128()),
        Err(e) => Err(e.to_string()),
    }
}

/// The sixteen bytes of a UUID, most significant first.
pub open spec fn uuid_bytes(id: u128) -> Seq<u8> {
    Seq::new(16, |i: int| ((id as int / vstd::arithmetic::power::pow(256, (15 - i) as nat)) % 256) as u8)
}

/// The simple form of a UUID: 32 lower-case hexadecimal digits.
pub open spec fn uuid_simple(id: u128) -> Seq<char> {
    hex_lower(uuid_bytes(id))
}

/// The simple form of a UUID has 32 characters.
pub proof fn lemma_uuid_simple_len(id: u128)
    ensures
        uuid_simple(id).len() == 32,
{
    lemma_hex_lower_len(uuid_bytes(id));
}

/// The hyphenated form of a UUID, `8-4-4-4-12` lower-case hexadecimal
/// digits: what `Uuid` displays.
pub open spec fn uuid_hyphenated(id: u128) -> Seq<char> {
    let h = uuid_simple(id);
    h.subrange(0, 8) + seq!['-'] + h.subrange(8, 12) + seq!['-'] + h.subrange(12, 16) + seq!['-']
        + h.subrange(16, 20) + seq!['-'] + h.subrange(20, 32)
}

/// `Uuid::from_u128(id).to_string()`: the hyphenated lower-case form.
#[verifier::external_body]
pub(crate) fn uuid_text(id: u128) -> (r: String)
    ensures
        r@ == uuid_hyphenated(id),
{
    uuid::Uuid::from_u128(id).to_string()
}

/// `Uuid::from_u128(id).simple().to_string()`: 32 lower-case hexadecimal
/// digits.
#[verifier::external_body]
pub(crate) fn uuid_simple_text(id: u128) -> (r: String)
    ensures
        r@ == uuid_simple(id),
{
    uuid::Uuid::from_u128(id).simple().to_string()
}

} // verus!
