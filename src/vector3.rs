use vstd::prelude::*;
use core::ops::{Add, Mul, Sub};
use vstd::std_specs::ops::{AddSpec, MulSpec, SubSpec};
use crate::scalar::specified_arith;
use crate::sqrt_trait::Sqrt;
use crate::vector2::Vector2;

verus! {

/// A three-component vector with copy semantics.
#[verifier::reject_recursive_types(T)]
#[derive(Copy, Clone)]
pub struct Vector3<T> where T: Add<Output = T> + Sub<Output = T> + Mul<Output = T> + Copy {
    pub x: T,
    pub y: T,
    pub z: T,
}

/// `a.x * b.x + a.y * b.y + a.z * b.z`, evaluated left to right with `T`'s own
/// operators.
pub open spec fn dot3<T: Add<Output = T> + Sub<Output = T> + Mul<Output = T> + Copy>(a: Vector3<T>, b: Vector3<T>) -> T {
    a.x.mul_spec(b.x).add_spec(a.y.mul_spec(b.y)).add_spec(a.z.mul_spec(b.z))
}

/// The operations behind `dot3(a, b)` are within the operators' own
/// preconditions.
pub open spec fn dot3_defined<T: Add<Output = T> + Sub<Output = T> + Mul<Output = T> + Copy>(a: Vector3<T>, b: Vector3<T>) -> bool {
    &&& a.x.mul_req(b.x)
    &&& a.y.mul_req(b.y)
    &&& a.z.mul_req(b.z)
    &&& a.x.mul_spec(b.x).add_req(a.y.mul_spec(b.y))
    &&& a.x.mul_spec(b.x).add_spec(a.y.mul_spec(b.y)).add_req(a.z.mul_spec(b.z))
}

impl<T: Add<Output = T> + Sub<Output = T> + Mul<Output = T> + Copy + Default> Vector3<T> {
    /// Extends `vector2` with `T::default()` as the third component.
    pub fn from_vector2(vector2: Vector2<T>) -> (r: Vector3<T>)
        ensures
            r.x == vector2.x,
            r.y == vector2.y,
            call_ensures(T::default, (), r.z),
    {
        Vector3::<T> { x: vector2.x, y: vector2.y, z: T::default() }
    }
}

impl<T: Add<Output = T> + Sub<Output = T> + Mul<Output = T> + Copy> Vector3<T> {
    pub fn new(x: T, y: T, z: T) -> (r: Vector3<T>)
        ensures
            r.x == x,
            r.y == y,
            r.z == z,
    {
        Vector3 { x, y, z }
    }

    /// Multiplies each component by `scalar`.
    pub fn scalar_multiplication(self, scalar: T) -> (r: Self)
        requires
            self.x.mul_req(scalar),
            self.y.mul_req(scalar),
            self.z.mul_req(scalar),
        ensures
            T::obeys_mul_spec() ==> r.x == self.x.mul_spec(scalar),
            T::obeys_mul_spec() ==> r.y == self.y.mul_spec(scalar),
            T::obeys_mul_spec() ==> r.z == self.z.mul_spec(scalar),
    {
        Vector3 { x: self.x * scalar, y: self.y * scalar, z: self.z * scalar }
    }

    /// `self.x * other.x + self.y * other.y + self.z * other.z`.
    pub fn dot_product(self, other: Self) -> (r: T)
        requires
            specified_arith::<T>(),
            dot3_defined(self, other),
        ensures
            r == dot3(self, other),
    {
        self.x * other.x + self.y * other.y + self.z * other.z
    }
}

impl<T: Add<Output = T> + Sub<Output = T> + Mul<Output = T> + Copy + Sqrt> Vector3<T> {
    /// The Euclidean length: the square root of `x * x + y * y + z * z`.
    pub fn length(self) -> (r: T)
        requires
            specified_arith::<T>(),
            dot3_defined(self, self),
        ensures
            call_ensures(T::sqrt, (dot3(self, self),), r),
    {
        (self.x * self.x + self.y * self.y + self.z * self.z).sqrt()
    }
}

impl<T: Add<Output = T> + Sub<Output = T> + Mul<Output = T> + Copy> Add for Vector3<T> {
    type Output = Self;

    fn add(self, other: Self) -> (r: Self) {
        Vector3 { x: self.x + other.x, y: self.y + other.y, z: self.z + other.z }
    }
}

impl<T: Add<Output = T> + Sub<Output = T> + Mul<Output = T> + Copy> vstd::std_specs::ops::AddSpecImpl for Vector3<T> {
    open spec fn obeys_add_spec() -> bool {
        T::obeys_add_spec()
    }

    open spec fn add_req(self, other: Self) -> bool {
        self.x.add_req(other.x) && self.y.add_req(other.y) && self.z.add_req(other.z)
    }

    /// Component-wise sum.
    open spec fn add_spec(self, other: Self) -> Self {
        Vector3 { x: self.x.add_spec(other.x), y: self.y.add_spec(other.y), z: self.z.add_spec(other.z) }
    }
}

impl<T: Add<Output = T> + Sub<Output = T> + Mul<Output = T> + Copy> Sub for Vector3<T> {
    type Output = Self;

    fn sub(self, other: Vector3<T>) -> (r: Self) {
        Vector3 { x: self.x - other.x, y: self.y - other.y, z: self.z - other.z }
    }
}

impl<T: Add<Output = T> + Sub<Output = T> + Mul<Output = T> + Copy> vstd::std_specs::ops::SubSpecImpl for Vector3<T> {
    open spec fn obeys_sub_spec() -> bool {
        T::obeys_sub_spec()
    }

    open spec fn sub_req(self, other: Self) -> bool {
        self.x.sub_req(other.x) && self.y.sub_req(other.y) && self.z.sub_req(other.z)
    }

    /// Component-wise difference.
    open spec fn sub_spec(self, other: Self) -> Self {
        Vector3 { x: self.x.sub_spec(other.x), y: self.y.sub_spec(other.y), z: self.z.sub_spec(other.z) }
    }
}

} // verus!
