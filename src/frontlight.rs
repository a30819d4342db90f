use vstd::prelude::*;

verus! {

/// The error type of the `failure` crate, carried opaquely.
#[verifier::external_type_specification]
#[verifier::external_body]
pub struct ExFailureError(failure::Error);

/// A frontlight for machines without one: it keeps no state.
#[derive(Clone, Copy, Debug, PartialEq, Eq, Structural)]
pub struct FakeFrontlight {}

impl FakeFrontlight {
    /// Making a fake frontlight cannot fail.
    pub fn new() -> (r: Result<FakeFrontlight, failure::Error>)
        ensures
            r.is_ok(),
    {
        Ok(FakeFrontlight {})
    }
}

} // verus!
