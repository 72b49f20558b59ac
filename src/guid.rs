use vstd::prelude::*;

verus! {

/// A 128-bit globally unique identifier, held as one integer.
///
/// The all-zero value is the "null" identifier: as a query filter it means
/// "no filter", and the service never hands it out for a real object.
#[derive(Clone, Copy, Debug, PartialEq, Eq, Structural)]
pub struct Guid(pub u128);

impl Guid {
    pub open spec fn spec_is_zero(&self) -> bool {
        self.0 == 0
    }

    /// The null identifier.
    pub fn zeroed() -> (r: Guid)
        ensures
            r.spec_is_zero(),
    {
        Guid(0)
    }

    pub fn from_u128(v: u128) -> (r: Guid)
        ensures
            r.0 == v,
    {
        Guid(v)
    }

    pub fn to_u128(&self) -> (r: u128)
        ensures
            r == self.0,
    {
        self.0
    }

    #[verifier::when_used_as_spec(spec_is_zero)]
    pub fn is_zero(&self) -> (r: bool)
        ensures
            r == self.spec_is_zero(),
    {
        self.0 == 0
    }
}

} // verus!
