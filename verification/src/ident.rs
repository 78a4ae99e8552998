//! Checkpoint identifiers: the `uuid` crate's `Uuid`, its number and its text.

use uuid::Uuid;
use vstd::arithmetic::power::pow;
use vstd::prelude::*;

verus! {

/// `uuid::Uuid`, an opaque identifier that is carried through unchanged.
#[verifier::external_type_specification]
#[verifier::external_body]
pub struct ExUuid(Uuid);

/// The number that `Uuid::as_u128` returns for an identifier: its sixteen
/// bytes, the first one most significant.
pub uninterp spec fn uuid_number(id: Uuid) -> u128;

/// `Uuid::as_u128`: the number of an identifier.
pub assume_specification[ Uuid::as_u128 ](id: &Uuid) -> (n: u128)
    ensures
        n == uuid_number(*id),
;

/// The lower-case hexadecimal digit of a number below sixteen.
pub open spec fn hex_digit(d: int) -> char {
    if d < 10 {
        (48 + d) as char
    } else {
        (87 + d) as char
    }
}

/// Whether a hyphen stands at position `i` of an identifier's text.
pub open spec fn is_hyphen_position(i: int) -> bool {
    i == 8 || i == 13 || i == 18 || i == 23
}

/// How many hexadecimal digits stand before position `i` of an identifier's text.
pub open spec fn digits_before(i: int) -> int {
    if i <= 8 {
        i
    } else if i <= 13 {
        i - 1
    } else if i <= 18 {
        i - 2
    } else if i <= 23 {
        i - 3
    } else {
        i - 4
    }
}

/// The text of the identifier with number `n`: its thirty-two hexadecimal
/// digits, most significant first, in groups of 8, 4, 4, 4 and 12 that
/// hyphens separate.
pub open spec fn hyphenated(n: u128) -> Seq<char> {
    Seq::new(
        36,
        |i: int|
            if is_hyphen_position(i) {
                '-'
            } else {
                hex_digit(n as int / pow(16, (31 - digits_before(i)) as nat) % 16)
            },
    )
}

/// Calls `Uuid::hyphenated` on the identifier with number `n` and formats it.
/// The contract claims that `Uuid::from_u128` reads the number most
/// significant byte first, and that the text is lower-case hexadecimal in the
/// five hyphenated groups.
#[verifier::external_body]
pub(crate) fn hyphenated_text(n: u128) -> (text: String)
    ensures
        text@ == hyphenated(n),
{
    Uuid::from_u128(n).hyphenated().to_string()
}

} // verus!
