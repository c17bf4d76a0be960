//! Rotations as bit patterns.

use crate::scalar::{Scalar, ONE_BITS};
use crate::vector::Vector;
use vstd::prelude::*;

verus! {

/// A rotation `w + a.x i + a.y j + a.z k`, carried as bit patterns.
#[derive(Clone, Copy, Debug)]
pub struct Quaternion {
    pub a: Vector,
    pub w: Scalar,
}

impl Quaternion {
    /// Whether two rotations compare equal component by component, as numbers.
    pub open spec fn same_numbers(self, other: Quaternion) -> bool {
        self.a.same_numbers(other.a) && self.w.same_number(other.w)
    }

    /// The four components in the order the GPU reads them: the vector part,
    /// then the scalar part.
    pub open spec fn words(self) -> Seq<u32> {
        seq![self.a.x.bits, self.a.y.bits, self.a.z.bits, self.w.bits]
    }

    /// The rotation with the given component patterns.
    pub fn from_bits(x: u32, y: u32, z: u32, w: u32) -> (r: Quaternion)
        ensures
            r.words() == seq![x, y, z, w],
    {
        Quaternion { a: Vector::from_bits(x, y, z), w: Scalar { bits: w } }
    }
}

impl Default for Quaternion {
    /// The identity rotation: a zero vector part and a scalar part of one.
    fn default() -> (r: Quaternion)
        ensures
            r.words() == seq![0u32, 0u32, 0u32, ONE_BITS],
    {
        Quaternion::from_bits(0, 0, 0, ONE_BITS)
    }
}

impl PartialEq for Quaternion {
    fn eq(&self, other: &Self) -> (r: bool) {
        self.a == other.a && self.w == other.w
    }
}

impl vstd::std_specs::cmp::PartialEqSpecImpl for Quaternion {
    open spec fn obeys_eq_spec() -> bool {
        true
    }

    open spec fn eq_spec(&self, other: &Self) -> bool {
        self.same_numbers(*other)
    }
}

} // verus!
