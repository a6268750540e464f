//! Identifiers of devices, sessions, transfers and authorizations.
use vstd::prelude::*;

verus! {

/// A hexadecimal digit in lower case.
pub open spec fn hex_char(d: int) -> char {
    if d == 10 { 'a' } else if d == 11 { 'b' } else if d == 12 { 'c' } else if d == 13 { 'd' }
    else if d == 14 { 'e' } else if d == 15 { 'f' } else { crate::text::digit_char(d as nat) }
}

/// An identifier in groups of eight, four, four, four and twelve hexadecimal
/// digits, most significant first, with hyphens between the groups.
pub open spec fn hyphenated(id: u128) -> Seq<char> {
    Seq::new(
        36,
        |i: int|
            if i == 8 || i == 13 || i == 18 || i == 23 {
                '-'
            } else {
                let hyphens = if i < 8 { 0int } else if i < 13 { 1 } else if i < 18 { 2 } else if i
                    < 23 { 3 } else { 4 };
                let place = 31 - (i - hyphens);
                hex_char((id as int / vstd::arithmetic::power::pow(16, place as nat)) % 16)
            },
    )
}

/// Formats an identifier with `uuid::Uuid`'s `Display`. Claimed: the text is the
/// hyphenated notation of the identifier's 128 bits, in lower case.
#[verifier::external_body]
pub(crate) fn id_text(id: u128) -> (r: String)
    ensures
        r@ == hyphenated(id),
{
    uuid::Uuid::from_u128(id).to_string()
}

/// Draws an identifier with `uuid::Uuid::new_v4`. The value is random, so nothing
/// is claimed of it.
#[verifier::external_body]
pub(crate) fn fresh_id() -> (r: u128) {
    uuid::Uuid::new_v4().as_u128()
}

} // verus!
