//! Three-dimensional vectors over [`Scalar`].

use vstd::prelude::*;
use crate::scalar::Scalar;
use crate::scalar::ZERO_BITS;

verus! {

/// A vector of three doubles. A plain value: no component is constrained.
#[derive(Clone, Copy, Debug)]
pub struct Vector3 {
    pub x: Scalar,
    pub y: Scalar,
    pub z: Scalar,
}

impl Vector3 {
    /// The vector whose three components are positive zero.
    pub open spec fn spec_zero() -> Vector3 {
        Vector3 {
            x: Scalar { bits: ZERO_BITS },
            y: Scalar { bits: ZERO_BITS },
            z: Scalar { bits: ZERO_BITS },
        }
    }

    pub open spec fn spec_add(self, other: Vector3) -> Vector3 {
        Vector3 {
            x: self.x.spec_add(other.x),
            y: self.y.spec_add(other.y),
            z: self.z.spec_add(other.z),
        }
    }

    pub open spec fn spec_subtract(self, other: Vector3) -> Vector3 {
        Vector3 {
            x: self.x.spec_sub(other.x),
            y: self.y.spec_sub(other.y),
            z: self.z.spec_sub(other.z),
        }
    }

    pub open spec fn spec_scale(self, scalar: Scalar) -> Vector3 {
        Vector3 {
            x: self.x.spec_mul(scalar),
            y: self.y.spec_mul(scalar),
            z: self.z.spec_mul(scalar),
        }
    }

    /// `x*x' + y*y' + z*z'`, summed from the left.
    pub open spec fn spec_dot(self, other: Vector3) -> Scalar {
        self.x.spec_mul(other.x).spec_add(self.y.spec_mul(other.y)).spec_add(
            self.z.spec_mul(other.z),
        )
    }

    pub open spec fn spec_cross(self, other: Vector3) -> Vector3 {
        Vector3 {
            x: self.y.spec_mul(other.z).spec_sub(self.z.spec_mul(other.y)),
            y: self.z.spec_mul(other.x).spec_sub(self.x.spec_mul(other.z)),
            z: self.x.spec_mul(other.y).spec_sub(self.y.spec_mul(other.x)),
        }
    }

    /// The Euclidean length: the square root of the vector's dot product with
    /// itself.
    pub open spec fn spec_magnitude(self) -> Scalar {
        self.spec_dot(self).spec_sqrt()
    }

    /// Each component divided by the length.
    pub open spec fn spec_norm(self) -> Vector3 {
        Vector3 {
            x: self.x.spec_div(self.spec_magnitude()),
            y: self.y.spec_div(self.spec_magnitude()),
            z: self.z.spec_div(self.spec_magnitude()),
        }
    }

    pub fn new(x: Scalar, y: Scalar, z: Scalar) -> (r: Vector3)
        ensures
            r == (Vector3 { x, y, z }),
    {
        Vector3 { x, y, z }
    }

    /// The zero vector.
    pub fn zero() -> (r: Vector3)
        ensures
            r == Vector3::spec_zero(),
    {
        Vector3 {
            x: Scalar { bits: ZERO_BITS },
            y: Scalar { bits: ZERO_BITS },
            z: Scalar { bits: ZERO_BITS },
        }
    }

    /// Componentwise sum.
    pub fn add(&self, other: &Vector3) -> (r: Vector3)
        ensures
            r == self.spec_add(*other),
    {
        Vector3 { x: self.x.add(other.x), y: self.y.add(other.y), z: self.z.add(other.z) }
    }

    /// Componentwise difference `self - other`.
    pub fn subtract(&self, other: &Vector3) -> (r: Vector3)
        ensures
            r == self.spec_subtract(*other),
    {
        Vector3 { x: self.x.sub(other.x), y: self.y.sub(other.y), z: self.z.sub(other.z) }
    }

    /// Each component times `scalar`.
    pub fn scale(&self, scalar: Scalar) -> (r: Vector3)
        ensures
            r == self.spec_scale(scalar),
    {
        Vector3 { x: self.x.mul(scalar), y: self.y.mul(scalar), z: self.z.mul(scalar) }
    }

    /// The cross product `self × other`.
    pub fn cross(&self, other: &Vector3) -> (r: Vector3)
        ensures
            r == self.spec_cross(*other),
    {
        Vector3 {
            x: self.y.mul(other.z).sub(self.z.mul(other.y)),
            y: self.z.mul(other.x).sub(self.x.mul(other.z)),
            z: self.x.mul(other.y).sub(self.y.mul(other.x)),
        }
    }

    /// The dot product.
    pub fn dot(&self, other: &Vector3) -> (r: Scalar)
        ensures
            r == self.spec_dot(*other),
    {
        self.x.mul(other.x).add(self.y.mul(other.y)).add(self.z.mul(other.z))
    }

    /// The Euclidean length.
    pub fn magnitude(&self) -> (r: Scalar)
        ensures
            r == self.spec_magnitude(),
    {
        self.dot(self).sqrt()
    }

    /// The vector divided by its length. For the zero vector the division is
    /// by zero and the components are not finite; no input is refused.
    pub fn norm(&self) -> (r: Vector3)
        ensures
            r == self.spec_norm(),
    {
        let magnitude = self.magnitude();
        Vector3 {
            x: self.x.div(magnitude),
            y: self.y.div(magnitude),
            z: self.z.div(magnitude),
        }
    }
}

} // verus!
