//! Entity and audit-log identifiers.
//!
//! Identifiers are UUIDs held as their 128-bit big-endian value, the value
//! that `uuid::Uuid::as_u128` gives and `uuid::Uuid::from_u128` takes.

use vstd::prelude::*;

verus! {

/// The nil identifier (all bits zero), used as the antecedent audit-log id of
/// a record that has no predecessor.
pub const NIL_ID: u128 = 0;

/// The version nibble of a UUID held as a `u128`.
pub open spec fn uuid_version(id: u128) -> u128 {
    (id >> 76u128) & 0xfu128
}

/// The two variant bits of a UUID held as a `u128`.
pub open spec fn uuid_variant_bits(id: u128) -> u128 {
    (id >> 62u128) & 0x3u128
}

/// A random (version 4, RFC 4122 variant) UUID.
pub open spec fn is_random_uuid(id: u128) -> bool {
    uuid_version(id) == 4 && uuid_variant_bits(id) == 2
}

/// Calls `uuid::Uuid::new_v4` and returns the value of the fresh UUID.
/// The value is random; what holds of every outcome is that `new_v4` masks in
/// the version nibble 4 and the variant bits `10`.
#[verifier::external_body]
pub fn new_random_id() -> (id: u128)
    ensures
        is_random_uuid(id),
{
    uuid::Uuid::new_v4().as_u128()
}

/// A value identified by a 128-bit primary key, that can be copied.
pub trait Keyed: Sized {
    spec fn id_value(&self) -> u128;

    fn id(&self) -> (r: u128)
        ensures
            r == self.id_value(),
    ;

    fn duplicate(&self) -> (r: Self)
        ensures
            r == *self,
    ;
}

} // verus!
