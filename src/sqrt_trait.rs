use vstd::prelude::*;

verus! {

/// A square root on a scalar type, for its users to implement.
pub trait Sqrt {
    fn sqrt(self) -> Self where Self: Sized;
}

} // verus!
