//! Error values returned by the library.

use vstd::prelude::*;

verus! {

/// Errors returned by the core library.
#[derive(Debug, PartialEq)]
pub enum ProjectError {
    /// A required name or label was empty.
    EmptyName,
    /// The requested body id does not exist.
    BodyNotFound(u32),
    /// Orbit parameters are invalid for the requested configuration.
    InvalidOrbit(&'static str),
    /// A vector argument was zero or invalid.
    InvalidVector(&'static str),
    /// The central body configuration is invalid.
    InvalidCentralBody(&'static str),
    /// The simulation time step is invalid.
    InvalidTimeStep(&'static str),
    /// The body mass must be positive when applying forces.
    InvalidMass,
}

} // verus!
