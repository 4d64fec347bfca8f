//! Identifiers of persons: 128-bit UUIDs, made at random and written in the
//! hyphenated form.

use vstd::prelude::*;
use vstd::arithmetic::power::pow;
use crate::text::digit_char;

verus! {

/// The character of a hexadecimal digit, in lower case.
pub open spec fn hex_char(d: int) -> char
    recommends
        0 <= d <= 15,
{
    if d < 10 {
        digit_char(d)
    } else {
        ((87 + d) as u8) as char
    }
}

/// The hexadecimal digit of `bits` at place `i`, counted from the most
/// significant of the thirty-two.
pub open spec fn hex_digit_at(bits: u128, i: int) -> int
    recommends
        0 <= i < 32,
{
    (bits as int / pow(16, (31 - i) as nat)) % 16
}

/// How many hyphens stand before place `k` of the hyphenated form.
pub open spec fn hyphens_before(k: int) -> int {
    if k < 8 {
        0
    } else if k < 13 {
        1
    } else if k < 18 {
        2
    } else if k < 23 {
        3
    } else {
        4
    }
}

/// The hyphenated form of a UUID: its thirty-two hexadecimal digits in lower
/// case, most significant first, in groups of 8, 4, 4, 4 and 12 with a
/// hyphen between the groups.
pub open spec fn hyphenated(bits: u128) -> Seq<char> {
    Seq::new(
        36,
        |k: int|
            if k == 8 || k == 13 || k == 18 || k == 23 {
                '-'
            } else {
                hex_char(hex_digit_at(bits, k - hyphens_before(k)))
            },
    )
}

/// A UUID of version 4 in the RFC variant: the version digit is 4 and the two
/// highest bits of the variant field are `10`. The other 122 bits are free.
pub open spec fn is_random_uuid(bits: u128) -> bool {
    bits & 0x0000_0000_0000_f000_c000_0000_0000_0000 == 0x0000_0000_0000_4000_8000_0000_0000_0000
}

/// What the `uuid` crate reads a text as: the UUID, or nothing where the text
/// is none of the forms that it accepts.
pub uninterp spec fn uuid_parse(text: Seq<char>) -> Option<u128>;

/// Draws a fresh UUID.
///
/// Trusted: this is `uuid::Uuid::new_v4`, which takes 128 bits from the
/// operating system's random source and overwrites the version and variant
/// fields. Only those fields are promised; nothing is said of the rest.
#[verifier::external_body]
fn random_uuid() -> (bits: u128)
    ensures
        is_random_uuid(bits),
{
    uuid::Uuid::new_v4().as_u128()
}

/// Writes a UUID as text.
///
/// Trusted: this is the `Display` of `uuid::Uuid`, which writes the
/// hyphenated lower-case form of the sixteen bytes, the most significant
/// first.
#[verifier::external_body]
fn hyphenated_uuid(bits: u128) -> (s: String)
    ensures
        s@ == hyphenated(bits),
{
    uuid::Uuid::from_u128(bits).to_string()
}

/// Reads a UUID from text.
///
/// Trusted: this is `uuid::Uuid::try_parse`, the parser that `parse_str` and
/// `FromStr` of that crate share, without their account of what was wrong.
/// Its result depends on the text alone and is named `uuid_parse`; the one
/// thing claimed of it is that the hyphenated form of a UUID reads back as
/// that UUID.
#[verifier::external_body]
fn parse_uuid(text: &str) -> (r: Option<u128>)
    ensures
        r == uuid_parse(text@),
        forall|bits: u128| text@ == #[trigger] hyphenated(bits) ==> r == Some(bits),
{
    match uuid::Uuid::try_parse(text) {
        Ok(id) => Some(id.as_u128()),
        Err(_) => None,
    }
}

/// The identifier of a person.
#[derive(Clone, Copy, Debug, PartialEq, Eq, Hash, Structural)]
pub struct PersonId {
    pub bits: u128,
}

impl PersonId {
    /// A new identifier, drawn at random.
    pub fn random() -> (id: PersonId)
        ensures
            is_random_uuid(id.bits),
    {
        PersonId { bits: random_uuid() }
    }

    /// The identifier in its hyphenated form.
    pub fn to_text(&self) -> (s: String)
        ensures
            s@ == hyphenated(self.bits),
    {
        hyphenated_uuid(self.bits)
    }

    /// The identifier that a text stands for, if it is a UUID.
    pub fn parse(text: &str) -> (r: Option<PersonId>)
        ensures
            r == PersonId::of_parsed(uuid_parse(text@)),
            forall|id: PersonId| text@ == #[trigger] hyphenated(id.bits) ==> r == Some(id),
    {
        PersonId::from_parsed(parse_uuid(text))
    }

    /// The identifier with the bits that were read, if any were.
    pub open spec fn of_parsed(parsed: Option<u128>) -> Option<PersonId> {
        match parsed {
            Some(bits) => Some(PersonId { bits }),
            None => None,
        }
    }

    /// The identifier with the bits that were read, if any were.
    pub fn from_parsed(parsed: Option<u128>) -> (r: Option<PersonId>)
        ensures
            r == PersonId::of_parsed(parsed),
    {
        match parsed {
            Some(bits) => Some(PersonId { bits }),
            None => None,
        }
    }
}

} // verus!
