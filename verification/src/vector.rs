//! Three-component vectors as bit patterns.

use crate::scalar::{Scalar, ONE_BITS};
use vstd::prelude::*;

verus! {

/// Three single-precision components, carried as bit patterns.
#[derive(Clone, Copy, Debug)]
pub struct Vector {
    pub x: Scalar,
    pub y: Scalar,
    pub z: Scalar,
}

impl Vector {
    /// Whether two vectors compare equal component by component, as numbers.
    pub open spec fn same_numbers(self, other: Vector) -> bool {
        &&& self.x.same_number(other.x)
        &&& self.y.same_number(other.y)
        &&& self.z.same_number(other.z)
    }

    /// Whether any component is not a number.
    pub open spec fn has_nan(self) -> bool {
        self.x.is_nan_spec() || self.y.is_nan_spec() || self.z.is_nan_spec()
    }

    /// The components in the order the GPU reads them.
    pub open spec fn words(self) -> Seq<u32> {
        seq![self.x.bits, self.y.bits, self.z.bits]
    }

    /// The vector with the given component patterns.
    pub fn from_bits(x: u32, y: u32, z: u32) -> (r: Vector)
        ensures
            r.words() == seq![x, y, z],
    {
        Vector { x: Scalar { bits: x }, y: Scalar { bits: y }, z: Scalar { bits: z } }
    }

    /// The unit vector along the first axis.
    pub fn unit_x() -> (r: Vector)
        ensures
            r.words() == seq![ONE_BITS, 0u32, 0u32],
    {
        Vector::from_bits(ONE_BITS, 0, 0)
    }

    /// The unit vector along the second axis.
    pub fn unit_y() -> (r: Vector)
        ensures
            r.words() == seq![0u32, ONE_BITS, 0u32],
    {
        Vector::from_bits(0, ONE_BITS, 0)
    }

    /// The unit vector along the third axis.
    pub fn unit_z() -> (r: Vector)
        ensures
            r.words() == seq![0u32, 0u32, ONE_BITS],
    {
        Vector::from_bits(0, 0, ONE_BITS)
    }
}

impl Default for Vector {
    /// The zero vector.
    fn default() -> (r: Vector)
        ensures
            r.words() == seq![0u32, 0u32, 0u32],
    {
        Vector::from_bits(0, 0, 0)
    }
}

impl PartialEq for Vector {
    fn eq(&self, other: &Self) -> (r: bool) {
        self.x == other.x && self.y == other.y && self.z == other.z
    }
}

impl vstd::std_specs::cmp::PartialEqSpecImpl for Vector {
    open spec fn obeys_eq_spec() -> bool {
        true
    }

    open spec fn eq_spec(&self, other: &Self) -> bool {
        self.same_numbers(*other)
    }
}

} // verus!
