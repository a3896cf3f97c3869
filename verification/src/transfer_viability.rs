//! Availability classes of guided transfers for game/UI filtering.
//!
//! Guided transfers that are physically possible but too slow for gameplay are marked
//! [`TransferAvailability::Impractical`]. Transfers that cannot be started are
//! [`TransferAvailability::Unavailable`].

use vstd::prelude::*;

verus! {

/// Whether a transfer should be offered in the UI.
#[derive(Debug, Clone, Copy, PartialEq, Eq, Structural)]
pub enum TransferAvailability {
    /// Guided transfer is supported and expected to complete in reasonable time.
    Available,
    /// Physically possible but likely too slow for gameplay (low thrust, large plane change, etc.).
    Impractical,
    /// Cannot start (invalid target, escape trajectory, no thrust, etc.).
    Unavailable,
}

} // verus!
