//! Identifiers: 128-bit numbers, drawn at random where a new one is
//! needed. Written out, an identifier is a UUID; the number is its
//! sixteen bytes read big-endian.

use vstd::prelude::*;

verus! {

/// The bits of an identifier that say which kind it is.
pub const KIND_MASK: u128 = 0x0000_0000_0000_f000_c000_0000_0000_0000;

/// What those bits hold in an identifier drawn at random.
pub const KIND_RANDOM: u128 = 0x0000_0000_0000_4000_8000_0000_0000_0000;

/// `id` is marked as drawn at random: a version 4 UUID of the RFC
/// variant.
pub open spec fn is_random_id(id: u128) -> bool {
    id & KIND_MASK == KIND_RANDOM
}

/// `uuid::Uuid::new_v4`, read as a number by `Uuid::as_u128`.
///
/// Claimed of it: the version and variant bits are those of a random
/// UUID. The other 122 bits come from the system's random source, and
/// nothing is said of them.
#[verifier::external_body]
pub(crate) fn random_id() -> (id: u128)
    ensures
        is_random_id(id),
{
    uuid::Uuid::new_v4().as_u128()
}

} // verus!
