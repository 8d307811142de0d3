//! Generation of fresh session and player identifiers.

use vstd::prelude::*;

verus! {

/// Relies on `uuid::Uuid::new_v4` and `uuid::Uuid::as_u128`: a freshly
/// generated version-4 identifier, returned as its 128-bit value. The value
/// is random, so nothing is promised of it.
#[verifier::external_body]
pub fn fresh_id() -> u128 {
    uuid::Uuid::new_v4().as_u128()
}

} // verus!
