//! 128-bit identifiers: subscription and connection identifiers and tokens.

use crate::text::{comma_free, single_line};
use vstd::prelude::*;

verus! {

/// A 128-bit identifier: a UUID, held as the integer that its sixteen bytes
/// make, most significant byte first.
#[derive(Clone, Copy, Debug, PartialEq, Eq, Structural)]
pub struct Id128 {
    pub bits: u128,
}

/// The lower-case hexadecimal digit for `n`, which is below sixteen.
pub open spec fn hex_char(n: int) -> char {
    if n == 0 {
        '0'
    } else if n == 1 {
        '1'
    } else if n == 2 {
        '2'
    } else if n == 3 {
        '3'
    } else if n == 4 {
        '4'
    } else if n == 5 {
        '5'
    } else if n == 6 {
        '6'
    } else if n == 7 {
        '7'
    } else if n == 8 {
        '8'
    } else if n == 9 {
        '9'
    } else if n == 10 {
        'a'
    } else if n == 11 {
        'b'
    } else if n == 12 {
        'c'
    } else if n == 13 {
        'd'
    } else if n == 14 {
        'e'
    } else {
        'f'
    }
}

/// The `k`-th of the 32 hexadecimal digits of `bits`, the most significant
/// being digit 0.
pub open spec fn hex_digit(bits: u128, k: int) -> int {
    ((bits >> ((4 * (31 - k)) as u128)) & 0xf) as int
}

/// How many hyphens stand before position `i` of a hyphenated identifier.
pub open spec fn hyphens_before(i: int) -> int {
    if i < 8 {
        0
    } else if i < 13 {
        1
    } else if i < 18 {
        2
    } else if i < 23 {
        3
    } else {
        4
    }
}

/// The hyphenated text of an identifier: 32 lower-case hexadecimal digits in
/// groups of 8, 4, 4, 4 and 12, with a hyphen between the groups.
pub open spec fn uuid_text(bits: u128) -> Seq<char> {
    Seq::new(
        36,
        |i: int|
            if i == 8 || i == 13 || i == 18 || i == 23 {
                '-'
            } else {
                hex_char(hex_digit(bits, i - hyphens_before(i)))
            },
    )
}

/// The version that an identifier states: the 13th of its hexadecimal digits.
pub open spec fn uuid_version(bits: u128) -> int {
    hex_digit(bits, 12)
}

/// The hyphenated text has 36 characters, none of them a comma or a line
/// end.
pub proof fn lemma_uuid_text_shape(bits: u128)
    ensures
        uuid_text(bits).len() == 36,
        comma_free(uuid_text(bits)),
        single_line(uuid_text(bits)),
{
}

/// Calls uuid's `Uuid::from_u128` and, on the value it gives, `to_string`,
/// which writes the hyphenated lower-case form. The contract states that
/// text.
#[verifier::external_body]
fn hyphenated(bits: u128) -> (text: String)
    ensures
        text@ == uuid_text(bits),
{
    uuid::Uuid::from_u128(bits).to_string()
}

/// Calls uuid's `Uuid::new_v4` and hands out the value by `Uuid::as_u128`.
/// The value is random; the contract states only the version that every
/// such identifier carries.
#[verifier::external_body]
fn random_v4() -> (bits: u128)
    ensures
        uuid_version(bits) == 4,
{
    uuid::Uuid::new_v4().as_u128()
}

impl Id128 {
    /// The identifier with the given value.
    pub fn new(bits: u128) -> (id: Id128)
        ensures
            id.bits == bits,
    {
        Id128 { bits }
    }

    /// The hyphenated text of this identifier.
    pub fn to_text(&self) -> (text: String)
        ensures
            text@ == uuid_text(self.bits),
            text@.len() == 36,
            comma_free(text@),
            single_line(text@),
    {
        proof {
            lemma_uuid_text_shape(self.bits);
        }
        hyphenated(self.bits)
    }

    /// A freshly drawn random identifier, of version 4.
    pub fn random() -> (id: Id128)
        ensures
            uuid_version(id.bits) == 4,
    {
        Id128 { bits: random_v4() }
    }
}

} // verus!
