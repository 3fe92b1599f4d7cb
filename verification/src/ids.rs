//! 128-bit identifiers and their canonical text, as the `uuid` crate writes
//! and reads it.

use vstd::prelude::*;

verus! {

/// What `Uuid`'s `Display` writes for the identifier with the 128-bit value
/// `value`: 32 lower-case hexadecimal digits in five groups, set apart by
/// hyphens.
pub uninterp spec fn hyphenated(value: u128) -> Seq<char>;

/// What `Uuid::parse_str` makes of `text`: the 128-bit value of the
/// identifier, or `None` where it reports an error.
pub uninterp spec fn parsed_uuid(text: Seq<char>) -> Option<u128>;

/// Whether `value` is that of a random identifier, which is to say of one
/// of version 4: of its 128 bits, the four of the version read 4 and the two
/// of the variant read binary 10. The other 122 bits are free.
pub open spec fn is_version_4(value: u128) -> bool {
    value & 0x0000_0000_0000_F000_C000_0000_0000_0000u128
        == 0x0000_0000_0000_4000_8000_0000_0000_0000u128
}

/// `Uuid::new_v4`, by its 128-bit value: a random identifier. Which one
/// comes is not known beforehand; whichever comes is of version 4.
#[verifier::external_body]
pub(crate) fn random_uuid() -> (value: u128)
    ensures
        is_version_4(value),
{
    uuid::Uuid::new_v4().as_u128()
}

/// `Uuid`'s `Display`, on the identifier made by `Uuid::from_u128(value)`.
/// The text is 36 characters long, holds hexadecimal digits and hyphens only,
/// and `Uuid::parse_str` reads the identifier back from it.
#[verifier::external_body]
pub(crate) fn format_uuid(value: u128) -> (s: String)
    ensures
        s@ == hyphenated(value),
        s@.len() == 36,
        !s@.contains('/'),
        parsed_uuid(s@) == Some(value),
{
    uuid::Uuid::from_u128(value).to_string()
}

/// `Uuid::parse_str`, by the 128-bit value of what it returns.
#[verifier::external_body]
pub(crate) fn parse_uuid(text: &str) -> (r: Option<u128>)
    ensures
        r == parsed_uuid(text@),
{
    uuid::Uuid::parse_str(text).ok().map(|u| u.as_u128())
}

} // verus!
