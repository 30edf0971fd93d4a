use vstd::prelude::*;

verus! {

/// A fresh random identifier, from `uuid::Uuid::new_v4`, as its 128-bit value.
/// Nothing is stated of the value: it is random.
#[verifier::external_body]
pub(crate) fn new_v4() -> u128 {
    uuid::Uuid::new_v4().as_u128()
}

} // verus!
