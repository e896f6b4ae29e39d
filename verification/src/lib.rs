//! Gravitational N-body simulation: vector algebra, Newtonian forces,
//! explicit time integrators and the orchestrator that owns the bodies.
//!
//! Every real number is a [`scalar::Scalar`], an IEEE 754 double held by its
//! bit pattern. The arithmetic is done in software on those patterns, and the
//! contracts say which operations make up a result, in which order.

pub mod scalar;
pub mod geometry;
pub mod math;
pub mod physics;
pub mod integrators;
pub mod body;
pub mod solar_system;
