//! Time integrators: each advances a [`State`] by one time step.

use vstd::prelude::*;
use crate::integrators::euler::euler_step;
use crate::integrators::rk4::effective_substeps;
use crate::integrators::rk4::lemma_steps_keep_shape;
use crate::integrators::rk4::rk4_step;
use crate::physics::State;
use crate::physics::StateView;
use crate::scalar::Scalar;

pub mod euler;
pub mod rk4;

pub use self::euler::EulerIntegrator;
pub use self::rk4::RK4Integrator;

verus! {

/// The choice of integrator; `RK4` carries the number of substeps.
#[derive(Clone, Copy, Debug, PartialEq, Eq)]
pub enum IntegratorType {
    Euler,
    RK4(usize),
}

/// A stateless rule that advances every body by one interval of time.
pub trait Integrator {
    /// The state that one step of length `timestep` leads to.
    spec fn step_spec(&self, state: StateView, timestep: Scalar) -> StateView;

    /// Advances `state` in place by `timestep`. The outcome is a function of
    /// the integrator, the state before and the time step; the masses and the
    /// number of bodies stay as they are.
    fn step(&self, state: &mut State, timestep: Scalar)
        ensures
            final(state)@ == self.step_spec(old(state)@, timestep),
            final(state)@.masses == old(state)@.masses,
            final(state)@.positions.len() == old(state)@.positions.len(),
            final(state)@.velocities.len() == old(state)@.velocities.len(),
    ;
}

/// The state that one step of the chosen integrator leads to.
pub open spec fn advanced_by(kind: IntegratorType, state: StateView, timestep: Scalar) -> StateView {
    match kind {
        IntegratorType::Euler => euler_step(state, timestep),
        IntegratorType::RK4(substeps) => rk4_step(state, timestep, effective_substeps(substeps)),
    }
}

/// The state after `count` steps of the chosen integrator.
pub open spec fn after_steps(
    kind: IntegratorType,
    state: StateView,
    timestep: Scalar,
    count: nat,
) -> StateView
    decreases count,
{
    if count == 0 {
        state
    } else {
        advanced_by(kind, after_steps(kind, state, timestep, (count - 1) as nat), timestep)
    }
}

/// Determinism: two runs that start from equal states, with the same
/// integrator and the same time step, are in equal states after any number
/// of steps.
pub proof fn lemma_equal_starts_give_equal_runs(
    kind: IntegratorType,
    first: StateView,
    second: StateView,
    timestep: Scalar,
    count: nat,
)
    requires
        first == second,
    ensures
        after_steps(kind, first, timestep, count) == after_steps(kind, second, timestep, count),
{
}

/// One step of either integrator keeps the masses and the number of bodies,
/// and so leads from a well-formed state to a well-formed state.
pub proof fn lemma_step_keeps_shape(kind: IntegratorType, state: StateView, timestep: Scalar)
    ensures
        advanced_by(kind, state, timestep).masses == state.masses,
        advanced_by(kind, state, timestep).positions.len() == state.positions.len(),
        advanced_by(kind, state, timestep).velocities.len() == state.velocities.len(),
        state.wf() ==> advanced_by(kind, state, timestep).wf(),
{
    match kind {
        IntegratorType::Euler => {},
        IntegratorType::RK4(substeps) => {
            let n = effective_substeps(substeps);
            lemma_steps_keep_shape(state, timestep.spec_div(Scalar::spec_from_count(n)), n as nat);
        },
    }
}

/// Any number of steps keeps the masses and the number of bodies.
pub proof fn lemma_steps_keep_masses(
    kind: IntegratorType,
    state: StateView,
    timestep: Scalar,
    count: nat,
)
    ensures
        after_steps(kind, state, timestep, count).masses == state.masses,
        after_steps(kind, state, timestep, count).positions.len() == state.positions.len(),
        after_steps(kind, state, timestep, count).velocities.len() == state.velocities.len(),
        state.wf() ==> after_steps(kind, state, timestep, count).wf(),
    decreases count,
{
    if count > 0 {
        lemma_steps_keep_masses(kind, state, timestep, (count - 1) as nat);
        lemma_step_keeps_shape(
            kind,
            after_steps(kind, state, timestep, (count - 1) as nat),
            timestep,
        );
    }
}

} // verus!
