//! The classical fourth-order Runge-Kutta method.

use vstd::prelude::*;
use crate::geometry::Vector3;
use crate::integrators::Integrator;
use crate::math::calculate_acceleration;
use crate::math::calculate_force;
use crate::math::spec_acceleration;
use crate::math::spec_force;
use crate::physics::State;
use crate::physics::StateView;
use crate::scalar::Scalar;
use crate::scalar::TWO_BITS;

verus! {

/// One sixth as a double, the weight of the first and the last derivative.
pub const ONE_SIXTH_BITS: u64 = 0x3FC5_5555_5555_5555;

/// One third as a double, the weight of the two middle derivatives.
pub const ONE_THIRD_BITS: u64 = 0x3FD5_5555_5555_5555;

/// The acceleration of body `i` due to the bodies below index `k`, body `i`
/// itself left out: the pairwise accelerations added one by one, in index
/// order, to the zero vector.
pub open spec fn net_acceleration(state: StateView, i: int, k: int) -> Vector3
    decreases k,
{
    if k <= 0 {
        Vector3::spec_zero()
    } else if k - 1 == i {
        net_acceleration(state, i, k - 1)
    } else {
        net_acceleration(state, i, k - 1).spec_add(
            spec_acceleration(
                spec_force(
                    state.masses[i],
                    state.masses[k - 1],
                    state.positions[k - 1].spec_subtract(state.positions[i]),
                ),
                state.masses[i],
            ),
        )
    }
}

/// The acceleration of every body at the positions of `state`.
pub open spec fn accelerations(state: StateView) -> Seq<Vector3> {
    Seq::new(
        state.positions.len(),
        |i: int| net_acceleration(state, i, state.positions.len() as int),
    )
}

/// Four derivatives combined with the weights 1/6, 1/3, 1/3, 1/6, added in
/// that order to the zero vector.
pub open spec fn weighted(d1: Vector3, d2: Vector3, d3: Vector3, d4: Vector3) -> Vector3 {
    Vector3::spec_zero().spec_add(d1.spec_scale(Scalar { bits: ONE_SIXTH_BITS })).spec_add(
        d2.spec_scale(Scalar { bits: ONE_THIRD_BITS }),
    ).spec_add(d3.spec_scale(Scalar { bits: ONE_THIRD_BITS })).spec_add(
        d4.spec_scale(Scalar { bits: ONE_SIXTH_BITS }),
    )
}

/// The first trial state: `state` moved along its own derivative for half
/// of `timestep`.
pub open spec fn second_stage(state: StateView, timestep: Scalar) -> StateView {
    state.advance(
        state.velocities,
        accelerations(state),
        timestep.spec_div(Scalar { bits: TWO_BITS }),
    )
}

/// The second trial state: `state` moved along the derivative at the first
/// trial state for half of `timestep`.
pub open spec fn third_stage(state: StateView, timestep: Scalar) -> StateView {
    state.advance(
        second_stage(state, timestep).velocities,
        accelerations(second_stage(state, timestep)),
        timestep.spec_div(Scalar { bits: TWO_BITS }),
    )
}

/// The third trial state: `state` moved along the derivative at the second
/// trial state for the whole of `timestep`.
pub open spec fn fourth_stage(state: StateView, timestep: Scalar) -> StateView {
    state.advance(
        third_stage(state, timestep).velocities,
        accelerations(third_stage(state, timestep)),
        timestep,
    )
}

/// The state after one Runge-Kutta step of length `timestep`: each position
/// moves by `timestep` times the weighted velocities of the four stages, each
/// velocity by `timestep` times their weighted accelerations.
pub open spec fn rk4_single_step(state: StateView, timestep: Scalar) -> StateView {
    StateView {
        positions: Seq::new(
            state.positions.len(),
            |i: int|
                state.positions[i].spec_add(
                    weighted(
                        state.velocities[i],
                        second_stage(state, timestep).velocities[i],
                        third_stage(state, timestep).velocities[i],
                        fourth_stage(state, timestep).velocities[i],
                    ).spec_scale(timestep),
                ),
        ),
        velocities: Seq::new(
            state.velocities.len(),
            |i: int|
                state.velocities[i].spec_add(
                    weighted(
                        accelerations(state)[i],
                        accelerations(second_stage(state, timestep))[i],
                        accelerations(third_stage(state, timestep))[i],
                        accelerations(fourth_stage(state, timestep))[i],
                    ).spec_scale(timestep),
                ),
        ),
        masses: state.masses,
    }
}

/// The state after `count` Runge-Kutta steps of length `timestep` each.
pub open spec fn rk4_steps(state: StateView, timestep: Scalar, count: nat) -> StateView
    decreases count,
{
    if count == 0 {
        state
    } else {
        rk4_single_step(rk4_steps(state, timestep, (count - 1) as nat), timestep)
    }
}

/// The number of substeps that a request for `substeps` leads to: a request
/// for none is one for one.
pub open spec fn effective_substeps(substeps: usize) -> usize {
    if substeps == 0 {
        1
    } else {
        substeps
    }
}

/// A step of length `timestep` made of `substeps` Runge-Kutta steps, each of
/// length `timestep / substeps`.
pub open spec fn rk4_step(state: StateView, timestep: Scalar, substeps: usize) -> StateView {
    rk4_steps(
        state,
        timestep.spec_div(Scalar::spec_from_count(substeps)),
        substeps as nat,
    )
}

/// The derivative of `state`: the velocities as they are, and the
/// acceleration of every body at the positions of `state`.
pub fn calculate_derivatives(state: &State) -> (r: (Vec<Vector3>, Vec<Vector3>))
    ensures
        r.0@ == state@.velocities,
        r.1@ == accelerations(state@),
{
    let num_bodies = state.len();
    let positions = state.positions();
    let velocities = state.velocities();
    let masses = state.masses();
    let mut velocity: Vec<Vector3> = Vec::new();
    let mut acceleration: Vec<Vector3> = Vec::new();
    let mut i: usize = 0;
    while i < num_bodies
        invariant
            i <= num_bodies,
            state@.wf(),
            num_bodies == state@.positions.len(),
            positions@ == state@.positions,
            velocities@ == state@.velocities,
            masses@ == state@.masses,
            velocity@.len() == i,
            acceleration@.len() == i,
            forall|k: int| 0 <= k < i ==> velocity@[k] == state@.velocities[k],
            forall|k: int|
                0 <= k < i ==> acceleration@[k] == net_acceleration(
                    state@,
                    k,
                    num_bodies as int,
                ),
        decreases num_bodies - i,
    {
        let mut total = Vector3::zero();
        let mut j: usize = 0;
        while j < num_bodies
            invariant
                j <= num_bodies,
                i < num_bodies,
                state@.wf(),
                num_bodies == state@.positions.len(),
                positions@ == state@.positions,
                masses@ == state@.masses,
                total == net_acceleration(state@, i as int, j as int),
            decreases num_bodies - j,
        {
            if i != j {
                let force = calculate_force(
                    masses[i],
                    masses[j],
                    positions[j].subtract(&positions[i]),
                );
                total = total.add(&calculate_acceleration(force, masses[i]));
            }
            j += 1;
        }
        velocity.push(velocities[i]);
        acceleration.push(total);
        i += 1;
    }
    assert(velocity@ =~= state@.velocities);
    assert(acceleration@ =~= accelerations(state@));
    (velocity, acceleration)
}

/// The four derivatives of one entry, combined with the Runge-Kutta weights.
fn combine(d1: Vector3, d2: Vector3, d3: Vector3, d4: Vector3) -> (r: Vector3)
    ensures
        r == weighted(d1, d2, d3, d4),
{
    let sixth = Scalar::from_bits(ONE_SIXTH_BITS);
    let third = Scalar::from_bits(ONE_THIRD_BITS);
    let mut total = Vector3::zero();
    total = total.add(&d1.scale(sixth));
    total = total.add(&d2.scale(third));
    total = total.add(&d3.scale(third));
    total = total.add(&d4.scale(sixth));
    total
}

/// The Runge-Kutta method of order four, applied `substeps` times per step.
#[derive(Clone, Copy, Debug)]
pub struct RK4Integrator {
    substeps: usize,
}

impl RK4Integrator {
    #[verifier::type_invariant]
    spec fn inv(&self) -> bool {
        1 <= self.substeps
    }

    /// The number of substeps per step.
    pub closed spec fn spec_substeps(&self) -> usize {
        self.substeps
    }

    /// An integrator that divides each step into `substeps` equal parts. A
    /// count of zero is taken as one.
    pub fn new(substeps: usize) -> (r: RK4Integrator)
        ensures
            r.spec_substeps() == effective_substeps(substeps),
    {
        if substeps == 0 {
            RK4Integrator { substeps: 1 }
        } else {
            RK4Integrator { substeps }
        }
    }

    /// The number of substeps per step, at least one.
    pub fn substeps(&self) -> (r: usize)
        ensures
            r == self.spec_substeps(),
            1 <= r,
    {
        proof {
            use_type_invariant(self);
        }
        self.substeps
    }

    /// One Runge-Kutta step of length `timestep`.
    fn single_step(&self, state: &mut State, timestep: Scalar)
        ensures
            final(state)@ == rk4_single_step(old(state)@, timestep),
    {
        let num_bodies = state.len();
        let half = timestep.div(Scalar::from_bits(TWO_BITS));

        let d1 = calculate_derivatives(state);
        let temp_state = state.advance_by_derivatives(&d1, half).unwrap();
        let d2 = calculate_derivatives(&temp_state);
        let temp_state = state.advance_by_derivatives(&d2, half).unwrap();
        let d3 = calculate_derivatives(&temp_state);
        let temp_state = state.advance_by_derivatives(&d3, timestep).unwrap();
        let d4 = calculate_derivatives(&temp_state);

        assert(d2.0@ == second_stage(old(state)@, timestep).velocities);
        assert(d3.0@ == third_stage(old(state)@, timestep).velocities);
        assert(d4.0@ == fourth_stage(old(state)@, timestep).velocities);

        let mut i: usize = 0;
        while i < num_bodies
            invariant
                i <= num_bodies,
                old(state)@.wf(),
                num_bodies == old(state)@.positions.len(),
                d1.0@ == old(state)@.velocities,
                d1.1@ == accelerations(old(state)@),
                d2.0@ == second_stage(old(state)@, timestep).velocities,
                d2.1@ == accelerations(second_stage(old(state)@, timestep)),
                d3.0@ == third_stage(old(state)@, timestep).velocities,
                d3.1@ == accelerations(third_stage(old(state)@, timestep)),
                d4.0@ == fourth_stage(old(state)@, timestep).velocities,
                d4.1@ == accelerations(fourth_stage(old(state)@, timestep)),
                state@.masses == old(state)@.masses,
                state@.positions.len() == num_bodies,
                state@.velocities.len() == num_bodies,
                forall|k: int|
                    0 <= k < i ==> state@.positions[k] == rk4_single_step(
                        old(state)@,
                        timestep,
                    ).positions[k],
                forall|k: int|
                    0 <= k < i ==> state@.velocities[k] == rk4_single_step(
                        old(state)@,
                        timestep,
                    ).velocities[k],
                forall|k: int| i <= k < num_bodies ==> state@.positions[k] == old(state)@.positions[k],
                forall|k: int|
                    i <= k < num_bodies ==> state@.velocities[k] == old(state)@.velocities[k],
            decreases num_bodies - i,
        {
            let final_velocity = combine(d1.0[i], d2.0[i], d3.0[i], d4.0[i]).scale(timestep);
            let final_acceleration = combine(d1.1[i], d2.1[i], d3.1[i], d4.1[i]).scale(timestep);
            let position = state.positions()[i].add(&final_velocity);
            let velocity = state.velocities()[i].add(&final_acceleration);
            state.set_position(i, position);
            state.set_velocity(i, velocity);
            i += 1;
        }
        assert(state@.positions =~= rk4_single_step(old(state)@, timestep).positions);
        assert(state@.velocities =~= rk4_single_step(old(state)@, timestep).velocities);
    }
}

impl Integrator for RK4Integrator {
    /// `substeps` Runge-Kutta steps, each of length `timestep / substeps`.
    open spec fn step_spec(&self, state: StateView, timestep: Scalar) -> StateView {
        rk4_step(state, timestep, self.spec_substeps())
    }

    fn step(&self, state: &mut State, timestep: Scalar) {
        let substeps = self.substeps();
        let substep_size = timestep.div(Scalar::from_count(substeps));
        let mut done: usize = 0;
        while done < substeps
            invariant
                done <= substeps,
                state@ == rk4_steps(old(state)@, substep_size, done as nat),
            decreases substeps - done,
        {
            self.single_step(state, substep_size);
            done += 1;
        }
        proof {
            lemma_steps_keep_shape(old(state)@, substep_size, substeps as nat);
        }
    }
}

/// A Runge-Kutta step keeps the masses and the number of bodies.
pub proof fn lemma_single_step_keeps_shape(state: StateView, timestep: Scalar)
    ensures
        rk4_single_step(state, timestep).masses == state.masses,
        rk4_single_step(state, timestep).positions.len() == state.positions.len(),
        rk4_single_step(state, timestep).velocities.len() == state.velocities.len(),
{
}

/// Any number of Runge-Kutta steps keeps the masses and the number of bodies.
pub proof fn lemma_steps_keep_shape(state: StateView, timestep: Scalar, count: nat)
    ensures
        rk4_steps(state, timestep, count).masses == state.masses,
        rk4_steps(state, timestep, count).positions.len() == state.positions.len(),
        rk4_steps(state, timestep, count).velocities.len() == state.velocities.len(),
    decreases count,
{
    if count > 0 {
        lemma_steps_keep_shape(state, timestep, (count - 1) as nat);
        lemma_single_step_keeps_shape(rk4_steps(state, timestep, (count - 1) as nat), timestep);
    }
}

} // verus!
