//! Fresh random identifiers for new rows.

use vstd::prelude::*;

verus! {

/// A UUID of version 4 with the RFC 4122 variant, as `Uuid::new_v4` makes them.
pub open spec fn is_v4_id(id: u128) -> bool {
    (id >> 76u128) & 0xfu128 == 4 && (id >> 62u128) & 0x3u128 == 2
}

/// `uuid`: `Uuid::new_v4().as_u128()`. Random; the contract claims only what
/// every outcome has: the version nibble 4 and the RFC 4122 variant bits.
#[verifier::external_body]
pub(crate) fn random_uuid() -> (id: u128)
    ensures
        is_v4_id(id),
{
    uuid::Uuid::new_v4().as_u128()
}

} // verus!
