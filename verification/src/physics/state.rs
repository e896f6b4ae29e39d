//! The snapshot of all bodies that an integrator advances.

use vstd::prelude::*;
use crate::geometry::Vector3;
use crate::scalar::Scalar;

verus! {

/// Why three sequences do not make a state.
#[derive(Clone, Copy, Debug, PartialEq, Eq)]
pub enum InvariantViolation {
    /// The three sequences are not of one length.
    LengthMismatch,
    /// The lengths agree, but some mass is not above zero.
    NonPositiveMass,
}

/// What a [`State`] holds: index `i` of each sequence belongs to body `i`.
pub struct StateView {
    pub positions: Seq<Vector3>,
    pub velocities: Seq<Vector3>,
    pub masses: Seq<Scalar>,
}

impl StateView {
    /// The three sequences are of one length.
    pub open spec fn same_lengths(self) -> bool {
        self.positions.len() == self.velocities.len() == self.masses.len()
    }

    /// Every mass is above zero.
    pub open spec fn positive_masses(self) -> bool {
        forall|i: int| 0 <= i < self.masses.len() ==> (#[trigger] self.masses[i]).spec_is_positive()
    }

    /// The invariant of a state.
    pub open spec fn wf(self) -> bool {
        self.same_lengths() && self.positive_masses()
    }

    /// Positions and velocities added index by index; the masses are those of
    /// `self`.
    pub open spec fn add(self, other: StateView) -> StateView {
        StateView {
            positions: Seq::new(
                self.positions.len(),
                |i: int| self.positions[i].spec_add(other.positions[i]),
            ),
            velocities: Seq::new(
                self.velocities.len(),
                |i: int| self.velocities[i].spec_add(other.velocities[i]),
            ),
            masses: self.masses,
        }
    }

    /// Positions and velocities multiplied by `scalar`; the masses stay.
    pub open spec fn scale(self, scalar: Scalar) -> StateView {
        StateView {
            positions: Seq::new(
                self.positions.len(),
                |i: int| self.positions[i].spec_scale(scalar),
            ),
            velocities: Seq::new(
                self.velocities.len(),
                |i: int| self.velocities[i].spec_scale(scalar),
            ),
            masses: self.masses,
        }
    }

    /// Each position moved by `timestep` times the matching entry of
    /// `rates`, each velocity by `timestep` times the matching entry of
    /// `accelerations`; the masses stay.
    pub open spec fn advance(
        self,
        rates: Seq<Vector3>,
        accelerations: Seq<Vector3>,
        timestep: Scalar,
    ) -> StateView {
        StateView {
            positions: Seq::new(
                self.positions.len(),
                |i: int| self.positions[i].spec_add(rates[i].spec_scale(timestep)),
            ),
            velocities: Seq::new(
                self.velocities.len(),
                |i: int| self.velocities[i].spec_add(accelerations[i].spec_scale(timestep)),
            ),
            masses: self.masses,
        }
    }
}

/// Positions, velocities and masses of `N` bodies as three sequences of
/// length `N`, every mass above zero.
pub struct State {
    positions: Vec<Vector3>,
    velocities: Vec<Vector3>,
    masses: Vec<Scalar>,
}

impl View for State {
    type V = StateView;

    closed spec fn view(&self) -> StateView {
        StateView {
            positions: self.positions@,
            velocities: self.velocities@,
            masses: self.masses@,
        }
    }
}

/// `a[i] + b[i] * factor` for every index of `a`.
fn advanced(a: &Vec<Vector3>, b: &Vec<Vector3>, factor: Scalar) -> (r: Vec<Vector3>)
    requires
        a.len() == b.len(),
    ensures
        r@ == Seq::new(a@.len(), |i: int| a@[i].spec_add(b@[i].spec_scale(factor))),
{
    let mut out: Vec<Vector3> = Vec::new();
    let n = a.len();
    let mut i: usize = 0;
    while i < n
        invariant
            i <= n,
            n == a.len(),
            n == b.len(),
            out@.len() == i,
            forall|j: int| 0 <= j < i ==> out@[j] == a@[j].spec_add(b@[j].spec_scale(factor)),
        decreases n - i,
    {
        out.push(a[i].add(&b[i].scale(factor)));
        i += 1;
    }
    assert(out@ =~= Seq::new(a@.len(), |i: int| a@[i].spec_add(b@[i].spec_scale(factor))));
    out
}

/// `a[i] + b[i]` for every index of `a`.
fn summed(a: &Vec<Vector3>, b: &Vec<Vector3>) -> (r: Vec<Vector3>)
    requires
        a.len() == b.len(),
    ensures
        r@ == Seq::new(a@.len(), |i: int| a@[i].spec_add(b@[i])),
{
    let mut out: Vec<Vector3> = Vec::new();
    let n = a.len();
    let mut i: usize = 0;
    while i < n
        invariant
            i <= n,
            n == a.len(),
            n == b.len(),
            out@.len() == i,
            forall|j: int| 0 <= j < i ==> out@[j] == a@[j].spec_add(b@[j]),
        decreases n - i,
    {
        out.push(a[i].add(&b[i]));
        i += 1;
    }
    assert(out@ =~= Seq::new(a@.len(), |i: int| a@[i].spec_add(b@[i])));
    out
}

/// `a[i] * factor` for every index of `a`.
fn scaled(a: &Vec<Vector3>, factor: Scalar) -> (r: Vec<Vector3>)
    ensures
        r@ == Seq::new(a@.len(), |i: int| a@[i].spec_scale(factor)),
{
    let mut out: Vec<Vector3> = Vec::new();
    let n = a.len();
    let mut i: usize = 0;
    while i < n
        invariant
            i <= n,
            n == a.len(),
            out@.len() == i,
            forall|j: int| 0 <= j < i ==> out@[j] == a@[j].spec_scale(factor),
        decreases n - i,
    {
        out.push(a[i].scale(factor));
        i += 1;
    }
    assert(out@ =~= Seq::new(a@.len(), |i: int| a@[i].spec_scale(factor)));
    out
}

/// A copy of a sequence of vectors.
fn copied_vectors(a: &Vec<Vector3>) -> (r: Vec<Vector3>)
    ensures
        r@ == a@,
{
    let mut out: Vec<Vector3> = Vec::new();
    let n = a.len();
    let mut i: usize = 0;
    while i < n
        invariant
            i <= n,
            n == a.len(),
            out@.len() == i,
            forall|j: int| 0 <= j < i ==> out@[j] == a@[j],
        decreases n - i,
    {
        out.push(a[i]);
        i += 1;
    }
    assert(out@ =~= a@);
    out
}

/// A copy of a sequence of masses.
fn copied(a: &Vec<Scalar>) -> (r: Vec<Scalar>)
    ensures
        r@ == a@,
{
    let mut out: Vec<Scalar> = Vec::new();
    let n = a.len();
    let mut i: usize = 0;
    while i < n
        invariant
            i <= n,
            n == a.len(),
            out@.len() == i,
            forall|j: int| 0 <= j < i ==> out@[j] == a@[j],
        decreases n - i,
    {
        out.push(a[i]);
        i += 1;
    }
    assert(out@ =~= a@);
    out
}

/// Whether every mass of the sequence is above zero.
fn all_positive(masses: &Vec<Scalar>) -> (r: bool)
    ensures
        r == (forall|i: int| 0 <= i < masses@.len() ==> (#[trigger] masses@[i]).spec_is_positive()),
{
    let n = masses.len();
    let mut i: usize = 0;
    while i < n
        invariant
            i <= n,
            n == masses.len(),
            forall|j: int| 0 <= j < i ==> (#[trigger] masses@[j]).spec_is_positive(),
        decreases n - i,
    {
        if !masses[i].is_positive() {
            return false;
        }
        i += 1;
    }
    true
}

impl Clone for State {
    fn clone(&self) -> (r: State)
        ensures
            r@ == self@,
    {
        proof {
            use_type_invariant(self);
        }
        State {
            positions: copied_vectors(&self.positions),
            velocities: copied_vectors(&self.velocities),
            masses: copied(&self.masses),
        }
    }
}

impl State {
    #[verifier::type_invariant]
    spec fn inv(&self) -> bool {
        self@.wf()
    }

    /// Makes a state of three sequences, which must be of one length and
    /// hold only masses above zero. The lengths are looked at first.
    pub fn new(positions: Vec<Vector3>, velocities: Vec<Vector3>, masses: Vec<Scalar>) -> (r:
        Result<State, InvariantViolation>)
        ensures
            match r {
                Ok(state) => {
                    &&& state@.wf()
                    &&& state@.positions == positions@
                    &&& state@.velocities == velocities@
                    &&& state@.masses == masses@
                },
                Err(InvariantViolation::LengthMismatch) => !(positions@.len() == velocities@.len()
                    == masses@.len()),
                Err(InvariantViolation::NonPositiveMass) => {
                    &&& positions@.len() == velocities@.len() == masses@.len()
                    &&& exists|i: int|
                        0 <= i < masses@.len() && !(#[trigger] masses@[i]).spec_is_positive()
                },
            },
    {
        if positions.len() != velocities.len() || velocities.len() != masses.len() {
            return Err(InvariantViolation::LengthMismatch);
        }
        if !all_positive(&masses) {
            return Err(InvariantViolation::NonPositiveMass);
        }
        Ok(State { positions, velocities, masses })
    }

    /// The number of bodies.
    pub fn len(&self) -> (r: usize)
        ensures
            self@.wf(),
            r == self@.positions.len(),
    {
        proof {
            use_type_invariant(self);
        }
        self.positions.len()
    }

    /// The positions, by body.
    pub fn positions(&self) -> (r: &Vec<Vector3>)
        ensures
            self@.wf(),
            r@ == self@.positions,
    {
        proof {
            use_type_invariant(self);
        }
        &self.positions
    }

    /// The velocities, by body.
    pub fn velocities(&self) -> (r: &Vec<Vector3>)
        ensures
            self@.wf(),
            r@ == self@.velocities,
    {
        proof {
            use_type_invariant(self);
        }
        &self.velocities
    }

    /// The masses, by body.
    pub fn masses(&self) -> (r: &Vec<Scalar>)
        ensures
            self@.wf(),
            r@ == self@.masses,
    {
        proof {
            use_type_invariant(self);
        }
        &self.masses
    }

    /// Gives body `i` the position `position`, if there is such a body.
    pub fn set_position(&mut self, i: usize, position: Vector3)
        ensures
            i < old(self)@.positions.len() ==> final(self)@ == (StateView {
                positions: old(self)@.positions.update(i as int, position),
                ..old(self)@
            }),
            i >= old(self)@.positions.len() ==> final(self)@ == old(self)@,
    {
        proof {
            use_type_invariant(&*self);
        }
        if i < self.positions.len() {
            self.positions[i] = position;
        }
    }

    /// Gives body `i` the velocity `velocity`, if there is such a body.
    pub fn set_velocity(&mut self, i: usize, velocity: Vector3)
        ensures
            i < old(self)@.velocities.len() ==> final(self)@ == (StateView {
                velocities: old(self)@.velocities.update(i as int, velocity),
                ..old(self)@
            }),
            i >= old(self)@.velocities.len() ==> final(self)@ == old(self)@,
    {
        proof {
            use_type_invariant(&*self);
        }
        if i < self.velocities.len() {
            self.velocities[i] = velocity;
        }
    }

    /// The sum of two states of one length, with the masses of `self`.
    pub fn add(&self, other: &State) -> (r: Result<State, InvariantViolation>)
        ensures
            match r {
                Ok(state) => {
                    &&& self@.positions.len() == other@.positions.len()
                    &&& state@ == self@.add(other@)
                },
                Err(e) => {
                    &&& self@.positions.len() != other@.positions.len()
                    &&& e == InvariantViolation::LengthMismatch
                },
            },
    {
        proof {
            use_type_invariant(self);
            use_type_invariant(other);
        }
        if self.positions.len() != other.positions.len() {
            return Err(InvariantViolation::LengthMismatch);
        }
        let positions = summed(&self.positions, &other.positions);
        let velocities = summed(&self.velocities, &other.velocities);
        let masses = copied(&self.masses);
        Ok(State { positions, velocities, masses })
    }

    /// The state with every position and velocity multiplied by `scalar`.
    pub fn scale(&self, scalar: Scalar) -> (r: State)
        ensures
            r@ == self@.scale(scalar),
    {
        proof {
            use_type_invariant(self);
        }
        let positions = scaled(&self.positions, scalar);
        let velocities = scaled(&self.velocities, scalar);
        let masses = copied(&self.masses);
        State { positions, velocities, masses }
    }

    /// The state moved along `derivatives` for `timestep`: the first
    /// sequence holds the rate of change of each position, the second that
    /// of each velocity. Both must be as long as the state.
    pub fn advance_by_derivatives(
        &self,
        derivatives: &(Vec<Vector3>, Vec<Vector3>),
        timestep: Scalar,
    ) -> (r: Result<State, InvariantViolation>)
        ensures
            match r {
                Ok(state) => {
                    &&& derivatives.0@.len() == self@.positions.len()
                    &&& derivatives.1@.len() == self@.positions.len()
                    &&& state@ == self@.advance(derivatives.0@, derivatives.1@, timestep)
                },
                Err(e) => {
                    &&& !(derivatives.0@.len() == self@.positions.len() && derivatives.1@.len()
                        == self@.positions.len())
                    &&& e == InvariantViolation::LengthMismatch
                },
            },
    {
        proof {
            use_type_invariant(self);
        }
        if derivatives.0.len() != self.positions.len() || derivatives.1.len()
            != self.positions.len() {
            return Err(InvariantViolation::LengthMismatch);
        }
        let positions = advanced(&self.positions, &derivatives.0, timestep);
        let velocities = advanced(&self.velocities, &derivatives.1, timestep);
        let masses = copied(&self.masses);
        Ok(State { positions, velocities, masses })
    }
}

} // verus!
