use vstd::prelude::*;

verus! {

/// A new random id, made by `uuid::Uuid::new_v4` and read as a number with
/// `Uuid::as_u128`. The id is random: nothing is stated of it, not even that it differs
/// from the ids already in use.
#[verifier::external_body]
pub(crate) fn fresh_id() -> u128 {
    uuid::Uuid::new_v4().as_u128()
}

} // verus!
