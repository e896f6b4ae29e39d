//! The semi-implicit Euler method.

use vstd::prelude::*;
use crate::geometry::Vector3;
use crate::integrators::Integrator;
use crate::math::calculate_acceleration;
use crate::math::calculate_force;
use crate::math::spec_acceleration;
use crate::math::spec_force;
use crate::physics::State;
use crate::physics::StateView;
use crate::scalar::Scalar;

verus! {

/// The force on body `i` from the bodies below index `k`, body `i` itself
/// left out: the pairwise forces added one by one, in index order, to the
/// zero vector.
pub open spec fn net_force(state: StateView, i: int, k: int) -> Vector3
    decreases k,
{
    if k <= 0 {
        Vector3::spec_zero()
    } else if k - 1 == i {
        net_force(state, i, k - 1)
    } else {
        net_force(state, i, k - 1).spec_add(
            spec_force(
                state.masses[i],
                state.masses[k - 1],
                state.positions[k - 1].spec_subtract(state.positions[i]),
            ),
        )
    }
}

/// The velocity of body `i` after an Euler step: the old velocity plus the
/// acceleration from the net force at the old positions, times `timestep`.
pub open spec fn euler_velocity(state: StateView, timestep: Scalar, i: int) -> Vector3 {
    state.velocities[i].spec_add(
        spec_acceleration(
            net_force(state, i, state.positions.len() as int),
            state.masses[i],
        ).spec_scale(timestep),
    )
}

/// The position of body `i` after an Euler step: the old position plus the
/// new velocity times `timestep`.
pub open spec fn euler_position(state: StateView, timestep: Scalar, i: int) -> Vector3 {
    state.positions[i].spec_add(euler_velocity(state, timestep, i).spec_scale(timestep))
}

/// The state after an Euler step.
pub open spec fn euler_step(state: StateView, timestep: Scalar) -> StateView {
    StateView {
        positions: Seq::new(state.positions.len(), |i: int| euler_position(state, timestep, i)),
        velocities: Seq::new(
            state.velocities.len(),
            |i: int| euler_velocity(state, timestep, i),
        ),
        masses: state.masses,
    }
}

/// The force on body `i` from all the others.
fn force_on(state: &State, i: usize) -> (r: Vector3)
    requires
        i < state@.positions.len(),
    ensures
        r == net_force(state@, i as int, state@.positions.len() as int),
{
    let n = state.len();
    let positions = state.positions();
    let masses = state.masses();
    let mut total = Vector3::zero();
    let mut j: usize = 0;
    while j < n
        invariant
            j <= n,
            i < n,
            n == state@.positions.len(),
            state@.wf(),
            positions@ == state@.positions,
            masses@ == state@.masses,
            total == net_force(state@, i as int, j as int),
        decreases n - j,
    {
        if i != j {
            let force = calculate_force(masses[i], masses[j], positions[j].subtract(&positions[i]));
            total = total.add(&force);
        }
        j += 1;
    }
    total
}

/// The Euler method, which evaluates the forces once per step.
#[derive(Clone, Copy, Debug)]
pub struct EulerIntegrator;

impl Integrator for EulerIntegrator {
    open spec fn step_spec(&self, state: StateView, timestep: Scalar) -> StateView {
        euler_step(state, timestep)
    }

    /// Every force is taken at the positions before the step. Each body's
    /// velocity is advanced first, and the position then moves with the new
    /// velocity.
    fn step(&self, state: &mut State, timestep: Scalar) {
        let num_bodies = state.len();
        let mut forces: Vec<Vector3> = Vec::new();
        let mut i: usize = 0;
        while i < num_bodies
            invariant
                i <= num_bodies,
                num_bodies == state@.positions.len(),
                state@ == old(state)@,
                forces@.len() == i,
                forall|k: int|
                    0 <= k < i ==> forces@[k] == net_force(
                        old(state)@,
                        k,
                        num_bodies as int,
                    ),
            decreases num_bodies - i,
        {
            let force = force_on(state, i);
            forces.push(force);
            i += 1;
        }
        i = 0;
        while i < num_bodies
            invariant
                i <= num_bodies,
                old(state)@.wf(),
                num_bodies == old(state)@.positions.len(),
                forces@.len() == num_bodies,
                forall|k: int|
                    0 <= k < num_bodies ==> forces@[k] == net_force(
                        old(state)@,
                        k,
                        num_bodies as int,
                    ),
                state@.masses == old(state)@.masses,
                state@.positions.len() == num_bodies,
                state@.velocities.len() == num_bodies,
                forall|k: int|
                    0 <= k < i ==> state@.positions[k] == euler_position(
                        old(state)@,
                        timestep,
                        k,
                    ),
                forall|k: int|
                    0 <= k < i ==> state@.velocities[k] == euler_velocity(
                        old(state)@,
                        timestep,
                        k,
                    ),
                forall|k: int| i <= k < num_bodies ==> state@.positions[k] == old(state)@.positions[k],
                forall|k: int|
                    i <= k < num_bodies ==> state@.velocities[k] == old(state)@.velocities[k],
            decreases num_bodies - i,
        {
            let mass = state.masses()[i];
            let acc = calculate_acceleration(forces[i], mass);
            let velocity = state.velocities()[i].add(&acc.scale(timestep));
            state.set_velocity(i, velocity);
            let position = state.positions()[i].add(&velocity.scale(timestep));
            state.set_position(i, position);
            i += 1;
        }
        assert(state@.positions =~= euler_step(old(state)@, timestep).positions);
        assert(state@.velocities =~= euler_step(old(state)@, timestep).velocities);
    }
}

} // verus!
