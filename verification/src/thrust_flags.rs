//! Bit flags for combining [`ThrustDirection`](crate::ThrustDirection) values in Godot or
//! other hosts.

use vstd::prelude::*;

verus! {

/// Along velocity.
pub const PROGRADE: u32 = 1;
/// Against velocity.
pub const RETROGRADE: u32 = 2;
/// Left of travel.
pub const LEFT: u32 = 4;
/// Right of travel.
pub const RIGHT: u32 = 8;
/// Radial outward.
pub const UP: u32 = 16;
/// Radial inward.
pub const DOWN: u32 = 32;

} // verus!
