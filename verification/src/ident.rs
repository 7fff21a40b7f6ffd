//! Fresh 128-bit identifiers and their textual form.
//!
//! Identifiers are the 128-bit values of version-4 UUIDs, carried as plain
//! `u128`s. Drawing one is random, so nothing is promised of the draw;
//! the container checks freshness itself before using a drawn identifier.

use vstd::prelude::*;

verus! {

/// The canonical textual form of a 128-bit identifier: the lowercase
/// hyphenated UUID rendering of its big-endian bytes. A function of the
/// identifier alone.
pub uninterp spec fn uuid_text_of(id: u128) -> Seq<char>;

/// Relies on `uuid::Uuid::new_v4`: draws a random version-4 UUID, returned
/// as the `u128` of its big-endian bytes (`Uuid::as_u128`). The draw is
/// random, so nothing is promised of the result; callers must check
/// freshness against the container themselves.
#[verifier::external_body]
pub(crate) fn fresh_raw_id() -> u128 {
    uuid::Uuid::new_v4().as_u128()
}

/// Relies on `uuid::Uuid`'s `Display` implementation: the lowercase
/// hyphenated form of the identifier's UUID (`Uuid::from_u128` is the
/// inverse of `Uuid::as_u128`), always 36 characters, and a function of
/// the identifier alone.
#[verifier::external_body]
pub(crate) fn id_text(id: u128) -> (r: String)
    ensures
        r@ == uuid_text_of(id),
        r@.len() == 36,
{
    uuid::Uuid::from_u128(id).to_string()
}

} // verus!
