//! Identifiers: 128-bit values that name users, sessions and tokens, and the
//! text form in which they travel.

use vstd::prelude::*;
use crate::hexadecimal::lower_hex;

verus! {

/// The last `n` bytes of `value`, the most significant one first.
pub open spec fn be_bytes(value: nat, n: nat) -> Seq<u8>
    decreases n,
{
    if n == 0 {
        Seq::empty()
    } else {
        be_bytes(value / 256, (n - 1) as nat).push((value % 256) as u8)
    }
}

/// The text form of an identifier: its sixteen bytes in lower-case
/// hexadecimal, the most significant byte first, in groups of four, two, two,
/// two and six bytes with a hyphen between groups.
pub open spec fn hyphenated(id: u128) -> Seq<char> {
    let bytes = be_bytes(id as nat, 16);
    lower_hex(bytes.subrange(0, 4)) + seq!['-'] + lower_hex(bytes.subrange(4, 6)) + seq!['-']
        + lower_hex(bytes.subrange(6, 8)) + seq!['-'] + lower_hex(bytes.subrange(8, 10))
        + seq!['-'] + lower_hex(bytes.subrange(10, 16))
}

/// The identifier that a text stands for, if it stands for one. The `uuid`
/// crate decides: it reads the hyphenated form and a few others.
pub uninterp spec fn uuid_parsed(text: Seq<char>) -> Option<u128>;

/// The bits that mark an identifier as a random one: version 4, variant 1.
pub open spec fn is_random_id(id: u128) -> bool {
    id & 0x0000_0000_0000_f000_c000_0000_0000_0000u128
        == 0x0000_0000_0000_4000_8000_0000_0000_0000u128
}

/// Draws a new random identifier.
///
/// Trusted: `uuid::Uuid::new_v4`, which takes 128 random bits and sets the
/// version to 4 and the variant to 1. No more is known of the outcome.
#[verifier::external_body]
pub(crate) fn fresh_id() -> (id: u128)
    ensures
        is_random_id(id),
{
    uuid::Uuid::new_v4().as_u128()
}

/// Writes an identifier as text.
///
/// Trusted: the `Display` of `uuid::Uuid`, which writes the hyphenated
/// lower-case form, and the crate's promise that `Uuid::parse_str` reads every
/// form that the crate writes.
#[verifier::external_body]
pub(crate) fn id_text(id: u128) -> (text: String)
    ensures
        text@ == hyphenated(id),
        uuid_parsed(text@) == Some(id),
{
    uuid::Uuid::from_u128(id).to_string()
}

/// Reads an identifier from text.
///
/// Trusted: `uuid::Uuid::parse_str`.
#[verifier::external_body]
pub(crate) fn parse_id(text: &str) -> (id: Option<u128>)
    ensures
        id == uuid_parsed(text@),
{
    uuid::Uuid::parse_str(text).ok().map(|u| u.as_u128())
}

/// Draws a new random identifier: one of version 4 and variant 1. Nothing
/// more is known of the outcome.
pub fn random_id() -> (id: u128)
    ensures
        is_random_id(id),
{
    fresh_id()
}

} // verus!
