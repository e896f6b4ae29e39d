//! Newtonian gravitation between two point masses.

use vstd::prelude::*;
use crate::geometry::Vector3;
use crate::scalar::Scalar;
use crate::scalar::ONE_BITS;

verus! {

/// The gravitational constant, 6.6743e-11 N·m²/kg², as a double.
pub const GRAVITATIONAL_CONST_BITS: u64 = 0x3DD2_589E_FFED_8ACC;

/// The pull of a body of mass `mass2` on a body of mass `mass1`, where
/// `distance` leads from the first body to the second: the unit vector along
/// `distance`, scaled by `G * mass1 * mass2 / |distance|²`. The squared
/// length is the dot product of `distance` with itself.
pub open spec fn spec_force(mass1: Scalar, mass2: Scalar, distance: Vector3) -> Vector3 {
    distance.spec_norm().spec_scale(
        Scalar { bits: GRAVITATIONAL_CONST_BITS }.spec_mul(mass1).spec_mul(mass2).spec_div(
            distance.spec_dot(distance),
        ),
    )
}

/// The force times the reciprocal of the mass.
pub open spec fn spec_acceleration(force: Vector3, mass: Scalar) -> Vector3 {
    force.spec_scale(Scalar { bits: ONE_BITS }.spec_div(mass))
}

/// Gravitational force on the first body, directed along `distance` towards
/// the second. A zero `distance` is not refused: the divisions by zero then
/// give components that are not finite.
pub fn calculate_force(mass1: Scalar, mass2: Scalar, distance: Vector3) -> (r: Vector3)
    ensures
        r == spec_force(mass1, mass2, distance),
{
    let g = Scalar::from_bits(GRAVITATIONAL_CONST_BITS);
    let force_magnitude = g.mul(mass1).mul(mass2).div(distance.dot(&distance));
    let force_direction = distance.norm();
    force_direction.scale(force_magnitude)
}

/// Acceleration that `force` gives to a body of mass `mass`.
pub fn calculate_acceleration(force: Vector3, mass: Scalar) -> (r: Vector3)
    ensures
        r == spec_acceleration(force, mass),
{
    force.scale(Scalar::from_bits(ONE_BITS).div(mass))
}

} // verus!
