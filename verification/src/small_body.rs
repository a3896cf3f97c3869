//! Identifiers and runtime states of the small bodies orbiting the central mass.

use vstd::prelude::*;

verus! {

/// Identifier for a small body in a simulation.
#[derive(Debug, Clone, Copy, PartialEq, Eq, Hash, Structural)]
pub struct BodyId(pub u32);

/// Runtime state of a small body.
#[derive(Debug, Clone, Copy, PartialEq, Eq, Structural)]
pub enum BodyState {
    /// Free flight under gravity and thrust.
    Flying,
    /// Contact with the central body surface; motion clamped until a new burn is applied.
    SurfaceContact,
}

impl Default for BodyState {
    /// A new body is in free flight.
    fn default() -> (r: Self)
        ensures
            r == BodyState::Flying,
    {
        BodyState::Flying
    }
}

} // verus!
