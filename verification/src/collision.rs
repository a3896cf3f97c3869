//! Outcome of the surface-contact check of a small body.

use vstd::prelude::*;

verus! {

/// Result of resolving surface contact.
#[derive(Debug, Clone, Copy, PartialEq, Eq, Structural)]
pub enum SurfaceResolution {
    /// Body remains in free flight above the surface.
    AboveSurface,
    /// Body was clamped to the surface and stopped.
    ClampedToSurface,
}

} // verus!
