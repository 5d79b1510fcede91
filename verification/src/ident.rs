//! Identifiers of stored items: UUIDs, held as their 128 bits.
//!
//! Reading a UUID from text and drawing a fresh one are left to the `uuid`
//! crate. The two functions below that call it are trusted: their contracts
//! are stated, not proved.

use vstd::prelude::*;

verus! {

/// What `uuid::Uuid::parse_str` makes of `text`: the 128 bits of the UUID
/// that it reads, first byte most significant, or `None` where it rejects
/// the text.
pub uninterp spec fn uuid_parse_str(text: Seq<char>) -> Option<u128>;

/// Whether `id` carries the marks of a randomly drawn UUID: version 4 in the
/// upper half of its seventh byte, and the RFC 4122 variant in the two upper
/// bits of its ninth.
pub open spec fn is_random_uuid(id: u128) -> bool {
    (id >> 76) & 0xf == 4 && (id >> 62) & 0x3 == 2
}

/// Calls `uuid::Uuid::parse_str` and, where it accepts the text, takes the
/// UUID as a number with `Uuid::as_u128`. The parser reads the same text to
/// the same UUID wherever it runs, and it returns an error, never a panic,
/// on a text that it rejects. Trusted: the result is what `uuid_parse_str`
/// names.
#[verifier::external_body]
pub(crate) fn parse_uuid(text: &str) -> (parsed: Option<u128>)
    ensures
        parsed == uuid_parse_str(text@),
{
    match uuid::Uuid::parse_str(text) {
        Ok(uuid) => Some(uuid.as_u128()),
        Err(_) => None,
    }
}

/// Calls `uuid::Uuid::new_v4` and takes the UUID as a number with
/// `Uuid::as_u128`. The bits come from the operating system's random source;
/// `new_v4` then writes the version into the seventh byte and the variant
/// into the ninth. Trusted: those marks are all that is claimed of the
/// result. `new_v4` panics where the operating system hands out no random
/// bytes.
#[verifier::external_body]
pub(crate) fn random_uuid() -> (id: u128)
    ensures
        is_random_uuid(id),
{
    uuid::Uuid::new_v4().as_u128()
}

} // verus!
