//! Celestial bodies.

use vstd::prelude::*;
use crate::geometry::Vector3;
use crate::scalar::Scalar;
use crate::scalar::Single;
use crate::scalar::TEN_BITS;
use crate::scalar::TWO_BITS;

verus! {

/// The kind of a body.
#[derive(Clone, Copy, Debug, PartialEq, Eq, Structural)]
pub enum BodyType {
    Star,
    Planet,
    Moon,
    Satellite,
}

/// Why a body was refused.
#[derive(Clone, Copy, Debug, PartialEq, Eq)]
pub enum ValidationError {
    /// The mass is not above zero.
    NonPositiveMass,
    /// The mass is above zero, but the radius is not.
    NonPositiveRadius,
}

/// What a [`CelestialBody`] holds.
pub struct BodyView {
    pub name: Seq<char>,
    pub body_type: BodyType,
    /// In metres.
    pub position: Vector3,
    /// In kilometres.
    pub km_radius: Scalar,
    /// In kilograms.
    pub mass: Scalar,
    /// In metres per second.
    pub velocity: Vector3,
    /// Red, green and blue, each between zero and one.
    pub color: [Single; 3],
}

impl BodyView {
    /// Mass and radius are above zero.
    pub open spec fn wf(self) -> bool {
        self.mass.spec_is_positive() && self.km_radius.spec_is_positive()
    }

    /// `(ln(radius) - 10) / 2`, rounded to single precision.
    pub open spec fn display_size(self) -> Single {
        self.km_radius.spec_ln().spec_sub(Scalar { bits: TEN_BITS }).spec_div(
            Scalar { bits: TWO_BITS },
        ).spec_narrow()
    }
}

/// A simulated body. Mass and radius are above zero at all times.
pub struct CelestialBody {
    name: String,
    body_type: BodyType,
    position: Vector3,
    km_radius: Scalar,
    mass: Scalar,
    velocity: Vector3,
    color: [Single; 3],
}

impl View for CelestialBody {
    type V = BodyView;

    closed spec fn view(&self) -> BodyView {
        BodyView {
            name: self.name@,
            body_type: self.body_type,
            position: self.position,
            km_radius: self.km_radius,
            mass: self.mass,
            velocity: self.velocity,
            color: self.color,
        }
    }
}

impl CelestialBody {
    #[verifier::type_invariant]
    spec fn inv(&self) -> bool {
        self@.wf()
    }

    /// Makes a body, or refuses it: a mass that is not above zero is
    /// reported first, then a radius that is not.
    pub fn new(
        name: String,
        body_type: BodyType,
        position: Vector3,
        km_radius: Scalar,
        mass: Scalar,
        velocity: Vector3,
        color: [Single; 3],
    ) -> (r: Result<CelestialBody, ValidationError>)
        ensures
            match r {
                Ok(body) => {
                    &&& mass.spec_is_positive()
                    &&& km_radius.spec_is_positive()
                    &&& body@ == (BodyView {
                        name: name@,
                        body_type,
                        position,
                        km_radius,
                        mass,
                        velocity,
                        color,
                    })
                },
                Err(ValidationError::NonPositiveMass) => !mass.spec_is_positive(),
                Err(ValidationError::NonPositiveRadius) => mass.spec_is_positive()
                    && !km_radius.spec_is_positive(),
            },
    {
        if !mass.is_positive() {
            return Err(ValidationError::NonPositiveMass);
        }
        if !km_radius.is_positive() {
            return Err(ValidationError::NonPositiveRadius);
        }
        Ok(CelestialBody { name, body_type, position, km_radius, mass, velocity, color })
    }

    pub fn name(&self) -> (r: &String)
        ensures
            r@ == self@.name,
    {
        &self.name
    }

    pub fn body_type(&self) -> (r: BodyType)
        ensures
            r == self@.body_type,
    {
        self.body_type
    }

    pub fn position(&self) -> (r: Vector3)
        ensures
            r == self@.position,
    {
        self.position
    }

    /// The radius in kilometres, above zero.
    pub fn km_radius(&self) -> (r: Scalar)
        ensures
            r == self@.km_radius,
            r.spec_is_positive(),
    {
        proof {
            use_type_invariant(self);
        }
        self.km_radius
    }

    /// The mass in kilograms, above zero.
    pub fn mass(&self) -> (r: Scalar)
        ensures
            r == self@.mass,
            r.spec_is_positive(),
    {
        proof {
            use_type_invariant(self);
        }
        self.mass
    }

    pub fn velocity(&self) -> (r: Vector3)
        ensures
            r == self@.velocity,
    {
        self.velocity
    }

    pub fn color(&self) -> (r: [Single; 3])
        ensures
            r == self@.color,
    {
        self.color
    }

    /// The size at which the body is drawn: `(ln(radius) - 10) / 2`, in
    /// single precision.
    pub fn calculate_display_size(&self) -> (r: Single)
        ensures
            r == self@.display_size(),
    {
        self.km_radius.ln().sub(Scalar::from_bits(TEN_BITS)).div(
            Scalar::from_bits(TWO_BITS),
        ).narrow()
    }

    /// Gives the body a new position and velocity; nothing else changes.
    pub(crate) fn move_to(&mut self, position: Vector3, velocity: Vector3)
        ensures
            final(self)@ == (BodyView { position, velocity, ..old(self)@ }),
    {
        proof {
            use_type_invariant(&*self);
        }
        self.position = position;
        self.velocity = velocity;
    }
}

} // verus!
