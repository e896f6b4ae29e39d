//! The simulation state.

pub mod state;

pub use self::state::InvariantViolation;
pub use self::state::State;
pub use self::state::StateView;
