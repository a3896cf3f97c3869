//! Integer codes under which hosts (the Godot extension, GDScript) pass orbit types and
//! body states, and body ids as signed host integers.

use vstd::prelude::*;

use crate::orbits::OrbitType;
use crate::small_body::{BodyId, BodyState};
use crate::transfer_burn::TransferBurnStatus;
use crate::transfer_viability::TransferAvailability;

verus! {

/// Host-facing orbit type (`OrbitalSimulation.ORBIT_*` constants in GDScript).
#[derive(Debug, Clone, Copy, PartialEq, Eq, Structural)]
pub enum GdOrbitType {
    /// Prograde circular equatorial orbit (code 0).
    CircularEquatorial,
    /// Circular polar orbit (code 1).
    CircularPolar,
    /// Geostationary equatorial orbit (code 2).
    Geostationary,
    /// Low circular orbit (code 3).
    LowCircular,
    /// Retrograde circular equatorial orbit (code 4).
    RetrogradeEquatorial,
    /// Coplanar elliptical equatorial orbit (code 5).
    EllipticalEquatorial,
    /// Prograde circular orbit in the ecliptic (planet–sun) plane (code 6).
    EclipticPrograde,
    /// Retrograde circular orbit in the ecliptic plane (code 7).
    EclipticRetrograde,
    /// Elliptical orbit with configurable inclination (code 8).
    EllipticalInclined,
    /// Inclined circular orbit at geostationary altitude (code 9).
    Tundra,
    /// Highly elliptical inclined Molniya orbit (code 10).
    Molniya,
    /// Supersynchronous graveyard orbit above GEO (code 11).
    Graveyard,
}

/// The host code of each orbit type.
pub open spec fn spec_orbit_code(t: GdOrbitType) -> i64 {
    match t {
        GdOrbitType::CircularEquatorial => 0,
        GdOrbitType::CircularPolar => 1,
        GdOrbitType::Geostationary => 2,
        GdOrbitType::LowCircular => 3,
        GdOrbitType::RetrogradeEquatorial => 4,
        GdOrbitType::EllipticalEquatorial => 5,
        GdOrbitType::EclipticPrograde => 6,
        GdOrbitType::EclipticRetrograde => 7,
        GdOrbitType::EllipticalInclined => 8,
        GdOrbitType::Tundra => 9,
        GdOrbitType::Molniya => 10,
        GdOrbitType::Graveyard => 11,
    }
}

/// The orbit type with host code `value`, if any.
pub open spec fn spec_orbit_from_code(value: i64) -> Option<GdOrbitType> {
    if value == 0 {
        Some(GdOrbitType::CircularEquatorial)
    } else if value == 1 {
        Some(GdOrbitType::CircularPolar)
    } else if value == 2 {
        Some(GdOrbitType::Geostationary)
    } else if value == 3 {
        Some(GdOrbitType::LowCircular)
    } else if value == 4 {
        Some(GdOrbitType::RetrogradeEquatorial)
    } else if value == 5 {
        Some(GdOrbitType::EllipticalEquatorial)
    } else if value == 6 {
        Some(GdOrbitType::EclipticPrograde)
    } else if value == 7 {
        Some(GdOrbitType::EclipticRetrograde)
    } else if value == 8 {
        Some(GdOrbitType::EllipticalInclined)
    } else if value == 9 {
        Some(GdOrbitType::Tundra)
    } else if value == 10 {
        Some(GdOrbitType::Molniya)
    } else if value == 11 {
        Some(GdOrbitType::Graveyard)
    } else {
        None
    }
}

/// The library orbit type that a host orbit type names (the variant of the same name).
pub open spec fn spec_orbit_type_of(t: GdOrbitType) -> OrbitType {
    match t {
        GdOrbitType::CircularEquatorial => OrbitType::CircularEquatorial,
        GdOrbitType::CircularPolar => OrbitType::CircularPolar,
        GdOrbitType::Geostationary => OrbitType::Geostationary,
        GdOrbitType::LowCircular => OrbitType::LowCircular,
        GdOrbitType::RetrogradeEquatorial => OrbitType::RetrogradeEquatorial,
        GdOrbitType::EllipticalEquatorial => OrbitType::EllipticalEquatorial,
        GdOrbitType::EclipticPrograde => OrbitType::EclipticPrograde,
        GdOrbitType::EclipticRetrograde => OrbitType::EclipticRetrograde,
        GdOrbitType::EllipticalInclined => OrbitType::EllipticalInclined,
        GdOrbitType::Tundra => OrbitType::Tundra,
        GdOrbitType::Molniya => OrbitType::Molniya,
        GdOrbitType::Graveyard => OrbitType::Graveyard,
    }
}

impl GdOrbitType {
    /// Converts a host orbit type constant to the enum.
    pub fn from_i64(value: i64) -> (r: Option<Self>)
        ensures
            r == spec_orbit_from_code(value),
    {
        match value {
            0 => Some(GdOrbitType::CircularEquatorial),
            1 => Some(GdOrbitType::CircularPolar),
            2 => Some(GdOrbitType::Geostationary),
            3 => Some(GdOrbitType::LowCircular),
            4 => Some(GdOrbitType::RetrogradeEquatorial),
            5 => Some(GdOrbitType::EllipticalEquatorial),
            6 => Some(GdOrbitType::EclipticPrograde),
            7 => Some(GdOrbitType::EclipticRetrograde),
            8 => Some(GdOrbitType::EllipticalInclined),
            9 => Some(GdOrbitType::Tundra),
            10 => Some(GdOrbitType::Molniya),
            11 => Some(GdOrbitType::Graveyard),
            _ => None,
        }
    }

    /// The host constant of this orbit type.
    pub fn to_i64(self) -> (r: i64)
        ensures
            r == spec_orbit_code(self),
    {
        match self {
            GdOrbitType::CircularEquatorial => 0,
            GdOrbitType::CircularPolar => 1,
            GdOrbitType::Geostationary => 2,
            GdOrbitType::LowCircular => 3,
            GdOrbitType::RetrogradeEquatorial => 4,
            GdOrbitType::EllipticalEquatorial => 5,
            GdOrbitType::EclipticPrograde => 6,
            GdOrbitType::EclipticRetrograde => 7,
            GdOrbitType::EllipticalInclined => 8,
            GdOrbitType::Tundra => 9,
            GdOrbitType::Molniya => 10,
            GdOrbitType::Graveyard => 11,
        }
    }
}

impl From<GdOrbitType> for OrbitType {
    fn from(value: GdOrbitType) -> (r: OrbitType) {
        match value {
            GdOrbitType::CircularEquatorial => OrbitType::CircularEquatorial,
            GdOrbitType::CircularPolar => OrbitType::CircularPolar,
            GdOrbitType::Geostationary => OrbitType::Geostationary,
            GdOrbitType::LowCircular => OrbitType::LowCircular,
            GdOrbitType::RetrogradeEquatorial => OrbitType::RetrogradeEquatorial,
            GdOrbitType::EllipticalEquatorial => OrbitType::EllipticalEquatorial,
            GdOrbitType::EclipticPrograde => OrbitType::EclipticPrograde,
            GdOrbitType::EclipticRetrograde => OrbitType::EclipticRetrograde,
            GdOrbitType::EllipticalInclined => OrbitType::EllipticalInclined,
            GdOrbitType::Tundra => OrbitType::Tundra,
            GdOrbitType::Molniya => OrbitType::Molniya,
            GdOrbitType::Graveyard => OrbitType::Graveyard,
        }
    }
}

impl vstd::std_specs::convert::FromSpecImpl<GdOrbitType> for OrbitType {
    open spec fn obeys_from_spec() -> bool {
        true
    }

    open spec fn from_spec(v: GdOrbitType) -> OrbitType {
        spec_orbit_type_of(v)
    }
}

/// Host-facing body state (`OrbitalSimulation.STATE_*` constants in GDScript).
#[derive(Debug, Clone, Copy, PartialEq, Eq, Structural)]
pub enum GdBodyState {
    /// Free flight under gravity (code 0).
    Flying,
    /// Contact with the planet surface (code 1).
    SurfaceContact,
}

impl GdBodyState {
    /// The host constant of this state.
    pub fn to_i64(self) -> (r: i64)
        ensures
            r == (match self {
                GdBodyState::Flying => 0i64,
                GdBodyState::SurfaceContact => 1i64,
            }),
    {
        match self {
            GdBodyState::Flying => 0,
            GdBodyState::SurfaceContact => 1,
        }
    }
}

impl From<BodyState> for GdBodyState {
    fn from(value: BodyState) -> (r: GdBodyState) {
        match value {
            BodyState::Flying => GdBodyState::Flying,
            BodyState::SurfaceContact => GdBodyState::SurfaceContact,
        }
    }
}

impl vstd::std_specs::convert::FromSpecImpl<BodyState> for GdBodyState {
    open spec fn obeys_from_spec() -> bool {
        true
    }

    open spec fn from_spec(v: BodyState) -> GdBodyState {
        match v {
            BodyState::Flying => GdBodyState::Flying,
            BodyState::SurfaceContact => GdBodyState::SurfaceContact,
        }
    }
}

/// The host constant of a transfer burn status (`TRANSFER_IDLE`, `TRANSFER_BURNING`,
/// `TRANSFER_FINISHED`).
pub fn transfer_status_code(status: TransferBurnStatus) -> (r: i64)
    ensures
        r == (match status {
            TransferBurnStatus::Idle => 0i64,
            TransferBurnStatus::Burning => 1i64,
            TransferBurnStatus::Finished => 2i64,
        }),
{
    match status {
        TransferBurnStatus::Idle => 0,
        TransferBurnStatus::Burning => 1,
        TransferBurnStatus::Finished => 2,
    }
}

/// The host constant of a transfer availability (`TRANSFER_VIABILITY_AVAILABLE`,
/// `TRANSFER_VIABILITY_IMPRACTICAL`, `TRANSFER_VIABILITY_UNAVAILABLE`).
pub fn transfer_availability_code(availability: TransferAvailability) -> (r: i64)
    ensures
        r == (match availability {
            TransferAvailability::Available => 0i64,
            TransferAvailability::Impractical => 1i64,
            TransferAvailability::Unavailable => 2i64,
        }),
{
    match availability {
        TransferAvailability::Available => 0,
        TransferAvailability::Impractical => 1,
        TransferAvailability::Unavailable => 2,
    }
}

/// The body id that a signed host integer names: negative values name no body; others are
/// taken modulo 2^32, as the host's cast to `u32` does.
pub fn body_id_from_i64(body_id: i64) -> (r: Option<BodyId>)
    ensures
        body_id < 0 ==> r is None,
        body_id >= 0 ==> r == Some(BodyId(body_id as u32)),
{
    if body_id < 0 {
        None
    } else {
        Some(BodyId(body_id as u32))
    }
}

/// Every host orbit type has a code that converts back to it, and exactly the codes 0 to 11
/// name an orbit type.
pub proof fn lemma_orbit_code_round_trip(t: GdOrbitType, value: i64)
    ensures
        spec_orbit_from_code(spec_orbit_code(t)) == Some(t),
        spec_orbit_from_code(value) is Some <==> 0 <= value <= 11,
        spec_orbit_from_code(value) matches Some(u) ==> spec_orbit_code(u) == value,
{
}

/// Distinct host orbit types name distinct library orbit types, and every library orbit type
/// is named by one.
pub proof fn lemma_orbit_type_mapping_is_bijective(a: GdOrbitType, b: GdOrbitType, t: OrbitType)
    ensures
        spec_orbit_type_of(a) == spec_orbit_type_of(b) ==> a == b,
        exists|c: GdOrbitType| spec_orbit_type_of(c) == t,
{
    let c = match t {
        OrbitType::CircularEquatorial => GdOrbitType::CircularEquatorial,
        OrbitType::CircularPolar => GdOrbitType::CircularPolar,
        OrbitType::Geostationary => GdOrbitType::Geostationary,
        OrbitType::LowCircular => GdOrbitType::LowCircular,
        OrbitType::RetrogradeEquatorial => GdOrbitType::RetrogradeEquatorial,
        OrbitType::EllipticalEquatorial => GdOrbitType::EllipticalEquatorial,
        OrbitType::EclipticPrograde => GdOrbitType::EclipticPrograde,
        OrbitType::EclipticRetrograde => GdOrbitType::EclipticRetrograde,
        OrbitType::EllipticalInclined => GdOrbitType::EllipticalInclined,
        OrbitType::Tundra => GdOrbitType::Tundra,
        OrbitType::Molniya => GdOrbitType::Molniya,
        OrbitType::Graveyard => GdOrbitType::Graveyard,
    };
    assert(spec_orbit_type_of(c) == t);
}

} // verus!
