//! Four 3D vectors in structure-of-arrays layout.
//!
//! `Vec3x4<L>` keeps the X, Y and Z components of four vectors in three
//! lane values of type `L` (the program uses a 4-lane `f32` register type).
//! Every operation here is lane-wise and is written with the lane type's
//! `+`, `-` and `*`, so the results are stated through the operator
//! specifications of `L`; for lane types whose operators follow their
//! specification (the integer types, for instance) they are exact.

use vstd::prelude::*;
use vstd::std_specs::ops::{AddSpec, SubSpec, MulSpec};

verus! {

/// Four 3D vectors: `x` holds the four X components, `y` the four Y
/// components and `z` the four Z components.
#[derive(Clone, Copy)]
pub struct Vec3x4<L> {
    pub x: L,
    pub y: L,
    pub z: L,
}

impl<L> Vec3x4<L> {
    /// Builds the packet from its three component registers.
    pub fn new(x: L, y: L, z: L) -> (r: Self)
        ensures
            r.x == x,
            r.y == y,
            r.z == z,
    {
        Self { x, y, z }
    }
}

impl<L: core::ops::Add<Output = L>> Vec3x4<L> {
    /// Component-wise sum: `(x + x', y + y', z + z')` in every lane.
    pub fn add(self, other: Self) -> (r: Self)
        requires
            self.x.add_req(other.x),
            self.y.add_req(other.y),
            self.z.add_req(other.z),
        ensures
            L::obeys_add_spec() ==> {
                &&& r.x == self.x.add_spec(other.x)
                &&& r.y == self.y.add_spec(other.y)
                &&& r.z == self.z.add_spec(other.z)
            },
    {
        Self { x: self.x + other.x, y: self.y + other.y, z: self.z + other.z }
    }
}

impl<L: core::ops::Sub<Output = L>> Vec3x4<L> {
    /// Component-wise difference: `(x - x', y - y', z - z')` in every lane.
    pub fn sub(self, other: Self) -> (r: Self)
        requires
            self.x.sub_req(other.x),
            self.y.sub_req(other.y),
            self.z.sub_req(other.z),
        ensures
            L::obeys_sub_spec() ==> {
                &&& r.x == self.x.sub_spec(other.x)
                &&& r.y == self.y.sub_spec(other.y)
                &&& r.z == self.z.sub_spec(other.z)
            },
    {
        Self { x: self.x - other.x, y: self.y - other.y, z: self.z - other.z }
    }
}

impl<L: core::ops::Mul<Output = L> + Copy> Vec3x4<L> {
    /// Scales each vector by the factor in its lane of `s`.
    pub fn mul_scalar(self, s: L) -> (r: Self)
        requires
            self.x.mul_req(s),
            self.y.mul_req(s),
            self.z.mul_req(s),
        ensures
            L::obeys_mul_spec() ==> {
                &&& r.x == self.x.mul_spec(s)
                &&& r.y == self.y.mul_spec(s)
                &&& r.z == self.z.mul_spec(s)
            },
    {
        Self { x: self.x * s, y: self.y * s, z: self.z * s }
    }
}

/// The lane-wise dot product `x * x' + y * y' + z * z'` through the lane
/// type's operator specifications.
pub open spec fn dot_spec<L: core::ops::Add<Output = L> + core::ops::Mul<Output = L>>(
    a: Vec3x4<L>,
    b: Vec3x4<L>,
) -> L {
    a.x.mul_spec(b.x).add_spec(a.y.mul_spec(b.y)).add_spec(a.z.mul_spec(b.z))
}

impl<L: core::ops::Add<Output = L> + core::ops::Mul<Output = L>> Vec3x4<L> {
    /// Lane-wise dot product: `x * x' + y * y' + z * z'`, summed left to
    /// right, in every lane.
    pub fn dot(self, other: Self) -> (r: L)
        requires
            self.x.mul_req(other.x),
            self.y.mul_req(other.y),
            self.z.mul_req(other.z),
            L::obeys_mul_spec() && L::obeys_add_spec() ==> {
                &&& self.x.mul_spec(other.x).add_req(self.y.mul_spec(other.y))
                &&& self.x.mul_spec(other.x).add_spec(self.y.mul_spec(other.y)).add_req(
                    self.z.mul_spec(other.z),
                )
            },
            !(L::obeys_mul_spec() && L::obeys_add_spec()) ==> forall|a: L, b: L| a.add_req(b),
        ensures
            L::obeys_mul_spec() && L::obeys_add_spec() ==> r == dot_spec(self, other),
    {
        let xx = self.x * other.x;
        let yy = self.y * other.y;
        let zz = self.z * other.z;
        xx + yy + zz
    }
}

/// Four rays in SIMD layout: four origins and four directions.
#[derive(Clone, Copy)]
pub struct Ray4<L> {
    pub orig: Vec3x4<L>,
    pub dir: Vec3x4<L>,
}

} // verus!
