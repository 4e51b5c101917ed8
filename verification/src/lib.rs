//! A single-occupant container mutated through a pure-update protocol.
//!
//! A [`PureCell`] owns exactly one value. Besides handing out direct
//! exclusive access to that value, it offers an update entry point that
//! takes the value out of its slot, feeds it together with an external
//! input to a transformation `(state, input) -> (state, output)` that
//! consumes the state by value, reinstates the transformed state, and
//! hands the output back to the caller. Taking the state by value means
//! no reference to the prior contents can outlive the transformation,
//! which is what makes the take/reinstate scheme sound.

mod cell;
pub mod laws;
mod slot;

pub use cell::PureCell;
pub use slot::Slot;
