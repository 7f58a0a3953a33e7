use vstd::prelude::*;
use core::convert::From;
use core::ops::{Add, Mul, Sub};
use vstd::std_specs::convert::FromSpec;
use vstd::std_specs::ops::{AddSpec, MulSpec, SubSpec};

verus! {

/// Holds when `+`, `-` and `*` on `T` compute the spec functions that vstd
/// gives them (`add_spec`, `sub_spec`, `mul_spec`), as they do on the
/// primitive integer types.
pub open spec fn specified_arith<T: Add<Output = T> + Sub<Output = T> + Mul<Output = T>>() -> bool {
    &&& T::obeys_add_spec()
    &&& T::obeys_sub_spec()
    &&& T::obeys_mul_spec()
}

/// The scalar that `T::from(k)` yields.
pub open spec fn small<T: From<i8>>(k: i8) -> T {
    T::from_spec(k)
}

} // verus!
