//! Guided-transfer bookkeeping: which bodies have a transfer, toward which orbit family, and
//! at which stage. The target's continuous data (orbit parameters, corrective delta-v) rides
//! along as a payload `P` that the library carries but does not read.

use std::collections::HashMap;

use vstd::prelude::*;
use vstd::std_specs::iter::IteratorSpec;

use crate::small_body::BodyId;
use crate::orbits::OrbitType;

verus! {

broadcast use vstd::std_specs::hash::group_hash_axioms;

/// Status of an in-progress transfer burn.
#[derive(Debug, Clone, Copy, PartialEq, Eq, Structural)]
pub enum TransferBurnStatus {
    /// No transfer burn active (or cleared after acknowledging completion).
    Idle,
    /// Guidance is applying delta-v each step toward the target orbit.
    Burning,
    /// The body has snapped to the target orbit's canonical initial state.
    Finished,
}

impl Default for TransferBurnStatus {
    /// No transfer burn is active by default.
    fn default() -> (r: Self)
        ensures
            r == TransferBurnStatus::Idle,
    {
        TransferBurnStatus::Idle
    }
}

/// Target orbit and progress tracking for a guided transfer.
pub struct GuidedTransfer<P> {
    /// Target orbit type.
    pub orbit_type: OrbitType,
    /// Target orbit data kept by the guidance (orbit parameters, corrective delta-v).
    pub target: P,
    /// Current status.
    pub status: TransferBurnStatus,
    /// Whether the transfer primarily lowers circular altitude.
    pub lowering_altitude: bool,
}

impl<P> GuidedTransfer<P> {
    /// A transfer that has just started: it is burning.
    pub fn new(orbit_type: OrbitType, target: P, lowering_altitude: bool) -> (r: Self)
        ensures
            r.orbit_type == orbit_type,
            r.target == target,
            r.status == TransferBurnStatus::Burning,
            r.lowering_altitude == lowering_altitude,
    {
        GuidedTransfer { orbit_type, target, status: TransferBurnStatus::Burning, lowering_altitude }
    }

    /// Marks the transfer as finished (after snapping to the target state).
    pub fn finish(&mut self)
        ensures
            final(self).status == TransferBurnStatus::Finished,
            final(self).orbit_type == old(self).orbit_type,
            final(self).target == old(self).target,
            final(self).lowering_altitude == old(self).lowering_altitude,
    {
        self.status = TransferBurnStatus::Finished;
    }
}

/// The transfer `t` with its status replaced by `status`.
pub open spec fn spec_with_status<P>(t: GuidedTransfer<P>, status: TransferBurnStatus) -> GuidedTransfer<P> {
    GuidedTransfer { status, ..t }
}

/// The registered transfers after the transfer of body `id`, if any, is marked finished.
pub open spec fn spec_finished<P>(m: Map<u32, GuidedTransfer<P>>, id: BodyId) -> Map<u32, GuidedTransfer<P>> {
    if m.contains_key(id.0) {
        m.insert(id.0, spec_with_status(m[id.0], TransferBurnStatus::Finished))
    } else {
        m
    }
}

/// The status that a map of registered transfers reports for body `id`.
pub open spec fn spec_status_in<P>(m: Map<u32, GuidedTransfer<P>>, id: BodyId) -> TransferBurnStatus {
    if m.contains_key(id.0) {
        m[id.0].status
    } else {
        TransferBurnStatus::Idle
    }
}

/// Per-body guided transfer state for a simulation.
pub struct TransferBurnTracker<P> {
    transfers: HashMap<u32, GuidedTransfer<P>>,
}

impl<P> TransferBurnTracker<P> {
    /// The registered transfers, keyed by body id.
    pub closed spec fn transfers(&self) -> Map<u32, GuidedTransfer<P>> {
        self.transfers@
    }

    /// A registered transfer is either burning or finished, never idle.
    #[verifier::type_invariant]
    spec fn registered_transfers_are_active(&self) -> bool {
        forall|k: u32| #[trigger]
            self.transfers@.contains_key(k) ==> self.transfers@[k].status
                != TransferBurnStatus::Idle
    }

    /// The status this tracker reports for body `id`.
    pub open spec fn spec_status(&self, id: BodyId) -> TransferBurnStatus {
        spec_status_in(self.transfers(), id)
    }

    /// Moves the registered transfers out, leaving none behind.
    fn take_transfers(&mut self) -> (r: HashMap<u32, GuidedTransfer<P>>)
        ensures
            r@ == old(self).transfers(),
            forall|k: u32| #[trigger]
                r@.contains_key(k) ==> r@[k].status != TransferBurnStatus::Idle,
            final(self).transfers() == Map::<u32, GuidedTransfer<P>>::empty(),
    {
        proof {
            use_type_invariant(&*self);
        }
        let mut transfers = HashMap::new();
        std::mem::swap(&mut transfers, &mut self.transfers);
        transfers
    }

    /// A tracker with no transfers.
    pub fn new() -> (r: Self)
        ensures
            r.transfers() == Map::<u32, GuidedTransfer<P>>::empty(),
    {
        TransferBurnTracker { transfers: HashMap::new() }
    }

    /// Starts a guided transfer toward the target orbit, replacing any earlier one of the body.
    pub fn start(&mut self, id: BodyId, orbit_type: OrbitType, target: P, lowering_altitude: bool)
        ensures
            final(self).transfers() == old(self).transfers().insert(
                id.0,
                GuidedTransfer {
                    orbit_type,
                    target,
                    status: TransferBurnStatus::Burning,
                    lowering_altitude,
                },
            ),
    {
        let mut transfers = self.take_transfers();
        transfers.insert(id.0, GuidedTransfer::new(orbit_type, target, lowering_altitude));
        self.transfers = transfers;
    }

    /// Marks a transfer as finished (after snapping to the target state); a body without a
    /// transfer is left without one.
    pub fn finish(&mut self, id: BodyId)
        ensures
            final(self).transfers() == spec_finished(old(self).transfers(), id),
    {
        let mut transfers = self.take_transfers();
        if let Some(mut transfer) = transfers.remove(&id.0) {
            transfer.finish();
            transfers.insert(id.0, transfer);
        }
        self.transfers = transfers;
    }

    /// Returns body ids with an active or finished transfer entry.
    pub fn body_ids(&self) -> (r: Vec<BodyId>)
        ensures
            forall|i: int| 0 <= i < r.len() ==> self.transfers().contains_key(#[trigger] r[i].0),
            forall|k: u32| #[trigger]
                self.transfers().contains_key(k) ==> r@.contains(BodyId(k)),
            r@.no_duplicates(),
    {
        let mut ids: Vec<BodyId> = Vec::new();
        let ghost keys = vstd::std_specs::hash::spec_keys_iter(&self.transfers).remaining();
        for key in iter: self.transfers.keys()
            invariant
                iter.seq() == keys,
                ids.len() == iter.index(),
                forall|i: int| 0 <= i < iter.index() ==> #[trigger] ids[i] == BodyId(*keys[i]),
        {
            ids.push(BodyId(*key));
        }
        proof {
            let ghost unref = keys.unref();
            assert(unref.to_set() == self.transfers@.dom());
            assert forall|i: int| 0 <= i < ids.len() implies self.transfers().contains_key(
                #[trigger] ids[i].0,
            ) by {
                assert(unref[i] == ids[i].0);
                assert(unref.contains(unref[i]));
            }
            assert forall|k: u32| #[trigger] self.transfers().contains_key(k) implies ids@.contains(
                BodyId(k),
            ) by {
                assert(unref.to_set().contains(k));
                let j = choose|j: int| 0 <= j < unref.len() && unref[j] == k;
                assert(ids@[j] == BodyId(k));
            }
            assert forall|i: int, j: int|
                0 <= i < ids.len() && 0 <= j < ids.len() && i != j implies ids@[i] != ids@[j] by {
                assert(keys[i] != keys[j]);
            }
        }
        ids
    }

    /// Whether the active transfer lowers circular altitude.
    pub fn lowering_altitude(&self, id: BodyId) -> (r: bool)
        ensures
            r == (self.transfers().contains_key(id.0) && self.transfers()[id.0].lowering_altitude),
    {
        match self.transfers.get(&id.0) {
            Some(transfer) => transfer.lowering_altitude,
            None => false,
        }
    }

    /// Returns the target orbit for a body, if a transfer is registered.
    pub fn target(&self, id: BodyId) -> (r: Option<(OrbitType, &P)>)
        ensures
            self.transfers().contains_key(id.0) ==> r == Some(
                (self.transfers()[id.0].orbit_type, &self.transfers()[id.0].target),
            ),
            !self.transfers().contains_key(id.0) ==> r is None,
    {
        match self.transfers.get(&id.0) {
            Some(transfer) => Some((transfer.orbit_type, &transfer.target)),
            None => None,
        }
    }

    /// Replaces the target data of a registered transfer (for example its latest corrective
    /// delta-v); a body without a transfer is left without one.
    pub fn set_target(&mut self, id: BodyId, target: P)
        ensures
            old(self).transfers().contains_key(id.0) ==> final(self).transfers()
                == old(self).transfers().insert(
                id.0,
                GuidedTransfer { target, ..old(self).transfers()[id.0] },
            ),
            !old(self).transfers().contains_key(id.0) ==> final(self).transfers() == old(
                self,
            ).transfers(),
    {
        let mut transfers = self.take_transfers();
        if let Some(transfer) = transfers.remove(&id.0) {
            let updated = GuidedTransfer {
                orbit_type: transfer.orbit_type,
                target,
                status: transfer.status,
                lowering_altitude: transfer.lowering_altitude,
            };
            transfers.insert(id.0, updated);
        }
        self.transfers = transfers;
    }

    /// Returns burn status for a body.
    pub fn status(&self, id: BodyId) -> (r: TransferBurnStatus)
        ensures
            r == self.spec_status(id),
            r == TransferBurnStatus::Idle <==> !self.transfers().contains_key(id.0),
    {
        proof {
            use_type_invariant(self);
        }
        match self.transfers.get(&id.0) {
            Some(transfer) => transfer.status,
            None => TransferBurnStatus::Idle,
        }
    }

    /// Clears transfer state for a body (e.g. after acknowledging completion).
    pub fn clear(&mut self, id: BodyId)
        ensures
            final(self).transfers() == old(self).transfers().remove(id.0),
    {
        let mut transfers = self.take_transfers();
        transfers.remove(&id.0);
        self.transfers = transfers;
    }

    /// Clears all transfers.
    pub fn clear_all(&mut self)
        ensures
            final(self).transfers() == Map::<u32, GuidedTransfer<P>>::empty(),
    {
        self.transfers = HashMap::new();
    }
}

impl<P> Default for TransferBurnTracker<P> {
    /// A tracker with no transfers.
    fn default() -> (r: Self)
        ensures
            r.transfers() == Map::<u32, GuidedTransfer<P>>::empty(),
    {
        TransferBurnTracker::new()
    }
}

/// How each tracker operation moves the status of a body: starting a transfer makes it
/// burning, finishing makes a registered transfer finished and leaves a body without one idle,
/// clearing (one body or all) makes it idle; and no operation on one body changes the status
/// of another.
pub proof fn lemma_transfer_status_transitions<P>(
    m: Map<u32, GuidedTransfer<P>>,
    id: BodyId,
    other: BodyId,
    orbit_type: OrbitType,
    target: P,
    lowering_altitude: bool,
)
    ensures
        ({
            let started = m.insert(
                id.0,
                GuidedTransfer {
                    orbit_type,
                    target,
                    status: TransferBurnStatus::Burning,
                    lowering_altitude,
                },
            );
            &&& spec_status_in(started, id) == TransferBurnStatus::Burning
            &&& other != id ==> spec_status_in(started, other) == spec_status_in(m, other)
        }),
        spec_status_in(spec_finished(m, id), id) == (if m.contains_key(id.0) {
            TransferBurnStatus::Finished
        } else {
            TransferBurnStatus::Idle
        }),
        other != id ==> spec_status_in(spec_finished(m, id), other) == spec_status_in(m, other),
        spec_status_in(m.remove(id.0), id) == TransferBurnStatus::Idle,
        other != id ==> spec_status_in(m.remove(id.0), other) == spec_status_in(m, other),
        spec_status_in(Map::<u32, GuidedTransfer<P>>::empty(), id) == TransferBurnStatus::Idle,
{
}

} // verus!
