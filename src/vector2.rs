use vstd::prelude::*;
use core::ops::{Add, Mul, Sub};
use vstd::std_specs::ops::{AddSpec, MulSpec, SubSpec};
use crate::scalar::specified_arith;
use crate::sqrt_trait::Sqrt;

verus! {

/// A two-component vector with copy semantics.
#[verifier::reject_recursive_types(T)]
#[derive(Copy, Clone)]
pub struct Vector2<T> where T: Add<Output = T> + Sub<Output = T> + Mul<Output = T> + Copy {
    pub x: T,
    pub y: T,
}

/// `a.x * b.x + a.y * b.y`, evaluated with `T`'s own operators.
pub open spec fn dot2<T: Add<Output = T> + Sub<Output = T> + Mul<Output = T> + Copy>(a: Vector2<T>, b: Vector2<T>) -> T {
    a.x.mul_spec(b.x).add_spec(a.y.mul_spec(b.y))
}

/// The operations behind `dot2(a, b)` are within the operators' own
/// preconditions.
pub open spec fn dot2_defined<T: Add<Output = T> + Sub<Output = T> + Mul<Output = T> + Copy>(a: Vector2<T>, b: Vector2<T>) -> bool {
    &&& a.x.mul_req(b.x)
    &&& a.y.mul_req(b.y)
    &&& a.x.mul_spec(b.x).add_req(a.y.mul_spec(b.y))
}

impl<T: Add<Output = T> + Sub<Output = T> + Mul<Output = T> + Copy> Vector2<T> {
    pub fn new(x: T, y: T) -> (r: Vector2<T>)
        ensures
            r.x == x,
            r.y == y,
    {
        Vector2::<T> { x, y }
    }

    /// Multiplies each component by `scalar`.
    pub fn scalar_multiplication(self, scalar: T) -> (r: Vector2<T>)
        requires
            self.x.mul_req(scalar),
            self.y.mul_req(scalar),
        ensures
            T::obeys_mul_spec() ==> r.x == self.x.mul_spec(scalar),
            T::obeys_mul_spec() ==> r.y == self.y.mul_spec(scalar),
    {
        Vector2 { x: self.x * scalar, y: self.y * scalar }
    }

    /// `self.x * other.x + self.y * other.y`.
    pub fn dot_product(self, other: Self) -> (r: T)
        requires
            specified_arith::<T>(),
            dot2_defined(self, other),
        ensures
            r == dot2(self, other),
    {
        self.x * other.x + self.y * other.y
    }
}

impl<T: Add<Output = T> + Sub<Output = T> + Mul<Output = T> + Copy + Sqrt> Vector2<T> {
    /// The Euclidean length: the square root of `x * x + y * y`.
    pub fn length(self) -> (r: T)
        requires
            specified_arith::<T>(),
            dot2_defined(self, self),
        ensures
            call_ensures(T::sqrt, (dot2(self, self),), r),
    {
        (self.x * self.x + self.y * self.y).sqrt()
    }
}

impl<T: Add<Output = T> + Sub<Output = T> + Mul<Output = T> + Copy> Add for Vector2<T> {
    type Output = Self;

    fn add(self, other: Self) -> (r: Self) {
        Self { x: self.x + other.x, y: self.y + other.y }
    }
}

impl<T: Add<Output = T> + Sub<Output = T> + Mul<Output = T> + Copy> vstd::std_specs::ops::AddSpecImpl for Vector2<T> {
    open spec fn obeys_add_spec() -> bool {
        T::obeys_add_spec()
    }

    open spec fn add_req(self, other: Self) -> bool {
        self.x.add_req(other.x) && self.y.add_req(other.y)
    }

    /// Component-wise sum.
    open spec fn add_spec(self, other: Self) -> Self {
        Vector2 { x: self.x.add_spec(other.x), y: self.y.add_spec(other.y) }
    }
}

impl<T: Add<Output = T> + Sub<Output = T> + Mul<Output = T> + Copy> Sub for Vector2<T> {
    type Output = Self;

    fn sub(self, other: Self) -> (r: Self) {
        Self { x: self.x - other.x, y: self.y - other.y }
    }
}

impl<T: Add<Output = T> + Sub<Output = T> + Mul<Output = T> + Copy> vstd::std_specs::ops::SubSpecImpl for Vector2<T> {
    open spec fn obeys_sub_spec() -> bool {
        T::obeys_sub_spec()
    }

    open spec fn sub_req(self, other: Self) -> bool {
        self.x.sub_req(other.x) && self.y.sub_req(other.y)
    }

    /// Component-wise difference.
    open spec fn sub_spec(self, other: Self) -> Self {
        Vector2 { x: self.x.sub_spec(other.x), y: self.y.sub_spec(other.y) }
    }
}

} // verus!
