//! Orbit families and the classification rules that the UI and the guidance use.

use vstd::prelude::*;

verus! {

/// Known orbit configurations for helper functions.
#[derive(Debug, Clone, Copy, PartialEq, Eq, Structural)]
pub enum OrbitType {
    /// Prograde circular orbit in the equatorial plane (inclination forced to zero).
    CircularEquatorial,
    /// Circular orbit passing over the poles (inclination 90°).
    CircularPolar,
    /// Circular equatorial orbit with period matching planet rotation.
    Geostationary,
    /// Low circular orbit with configurable inclination (0 = equatorial).
    LowCircular,
    /// Retrograde circular orbit in the equatorial plane.
    RetrogradeEquatorial,
    /// Coplanar elliptical orbit in the equatorial plane.
    EllipticalEquatorial,
    /// Prograde circular orbit in the planet–sun (ecliptic) plane.
    EclipticPrograde,
    /// Retrograde circular orbit in the planet–sun (ecliptic) plane.
    EclipticRetrograde,
    /// Elliptical orbit with configurable inclination (ascending node on +X).
    EllipticalInclined,
    /// Inclined circular orbit at geostationary altitude (Tundra-class).
    Tundra,
    /// Highly elliptical inclined orbit (Molniya-class, 12 h period).
    Molniya,
    /// Supersynchronous circular graveyard orbit above GEO.
    Graveyard,
}

/// Which reference fixes the plane of an orbit type.
#[derive(Debug, Clone, Copy, PartialEq, Eq, Structural)]
pub enum OrbitPlane {
    /// The equatorial plane (inclination zero).
    Equatorial,
    /// The plane given by the `inclination_rad` parameter (ascending node on +X).
    Inclined,
    /// The polar plane (inclination 90°).
    Polar,
    /// The ecliptic plane of the star (tilted by the obliquity).
    Ecliptic,
}

/// Elliptical (non-circular conic) orbit families: equatorial and inclined ellipses and Molniya.
pub open spec fn spec_is_elliptical(t: OrbitType) -> bool {
    ||| t == OrbitType::EllipticalEquatorial
    ||| t == OrbitType::EllipticalInclined
    ||| t == OrbitType::Molniya
}

/// Circular orbit families.
pub open spec fn spec_is_circular(t: OrbitType) -> bool {
    ||| t == OrbitType::CircularEquatorial
    ||| t == OrbitType::CircularPolar
    ||| t == OrbitType::Geostationary
    ||| t == OrbitType::LowCircular
    ||| t == OrbitType::RetrogradeEquatorial
    ||| t == OrbitType::EclipticPrograde
    ||| t == OrbitType::EclipticRetrograde
    ||| t == OrbitType::Tundra
    ||| t == OrbitType::Graveyard
}

/// Orbit families whose inclination is a free parameter.
pub open spec fn spec_uses_inclination(t: OrbitType) -> bool {
    ||| t == OrbitType::LowCircular
    ||| t == OrbitType::EllipticalInclined
    ||| t == OrbitType::Tundra
    ||| t == OrbitType::Molniya
}

/// Orbit families whose size is fixed by the planet (GEO, graveyard, tundra).
pub open spec fn spec_uses_computed_altitude(t: OrbitType) -> bool {
    ||| t == OrbitType::Geostationary
    ||| t == OrbitType::Graveyard
    ||| t == OrbitType::Tundra
}

/// Orbit families that revolve against the spin of the central body.
pub open spec fn spec_is_retrograde(t: OrbitType) -> bool {
    ||| t == OrbitType::RetrogradeEquatorial
    ||| t == OrbitType::EclipticRetrograde
}

/// Orbit families that lie in the star's ecliptic plane and take the star's obliquity.
pub open spec fn spec_uses_star_obliquity(t: OrbitType) -> bool {
    ||| t == OrbitType::EclipticPrograde
    ||| t == OrbitType::EclipticRetrograde
}

/// The reference that fixes the plane of each orbit family.
pub open spec fn spec_orbit_plane(t: OrbitType) -> OrbitPlane {
    match t {
        OrbitType::CircularEquatorial
        | OrbitType::Geostationary
        | OrbitType::Graveyard
        | OrbitType::RetrogradeEquatorial
        | OrbitType::EllipticalEquatorial => OrbitPlane::Equatorial,
        OrbitType::LowCircular
        | OrbitType::Tundra
        | OrbitType::EllipticalInclined
        | OrbitType::Molniya => OrbitPlane::Inclined,
        OrbitType::CircularPolar => OrbitPlane::Polar,
        OrbitType::EclipticPrograde | OrbitType::EclipticRetrograde => OrbitPlane::Ecliptic,
    }
}

/// Whether the orbit type uses perigee/apogee fields in the UI (elliptical and Molniya).
pub fn orbit_uses_elliptical_params(orbit_type: OrbitType) -> (r: bool)
    ensures
        r == spec_is_elliptical(orbit_type),
{
    matches!(
        orbit_type,
        OrbitType::EllipticalEquatorial | OrbitType::EllipticalInclined | OrbitType::Molniya
    )
}

/// Whether the orbit type uses an inclination UI field.
pub fn orbit_uses_inclination_param(orbit_type: OrbitType) -> (r: bool)
    ensures
        r == spec_uses_inclination(orbit_type),
{
    matches!(
        orbit_type,
        OrbitType::LowCircular | OrbitType::EllipticalInclined | OrbitType::Tundra
            | OrbitType::Molniya
    )
}

/// Whether altitude is computed from planet physics (GEO, graveyard, tundra) rather than user input.
pub fn orbit_uses_computed_altitude(orbit_type: OrbitType) -> (r: bool)
    ensures
        r == spec_uses_computed_altitude(orbit_type),
{
    matches!(orbit_type, OrbitType::Geostationary | OrbitType::Graveyard | OrbitType::Tundra)
}

/// Whether the orbit type is retrograde relative to the central body spin.
pub fn is_retrograde_orbit(orbit_type: OrbitType) -> (r: bool)
    ensures
        r == spec_is_retrograde(orbit_type),
        r <==> (orbit_type == OrbitType::RetrogradeEquatorial || orbit_type
            == OrbitType::EclipticRetrograde),
{
    matches!(orbit_type, OrbitType::RetrogradeEquatorial | OrbitType::EclipticRetrograde)
}

/// Whether the orbit type is a circular orbit family.
pub fn is_circular_orbit_type(orbit_type: OrbitType) -> (r: bool)
    ensures
        r == spec_is_circular(orbit_type),
{
    matches!(
        orbit_type,
        OrbitType::CircularEquatorial | OrbitType::CircularPolar | OrbitType::Geostationary
            | OrbitType::LowCircular | OrbitType::RetrogradeEquatorial
            | OrbitType::EclipticPrograde | OrbitType::EclipticRetrograde | OrbitType::Tundra
            | OrbitType::Graveyard
    )
}

/// Whether the target orbit type is elliptical (non-circular conic).
pub fn is_elliptical_orbit_type(orbit_type: OrbitType) -> (r: bool)
    ensures
        r == spec_is_elliptical(orbit_type),
{
    matches!(
        orbit_type,
        OrbitType::EllipticalEquatorial | OrbitType::EllipticalInclined | OrbitType::Molniya
    )
}

/// Whether the orbit lies in the star's ecliptic plane, so that its obliquity comes from
/// the simulation's star rather than from the caller's parameters.
pub fn orbit_uses_star_obliquity(orbit_type: OrbitType) -> (r: bool)
    ensures
        r == spec_uses_star_obliquity(orbit_type),
{
    matches!(orbit_type, OrbitType::EclipticPrograde | OrbitType::EclipticRetrograde)
}

/// The reference that fixes the target orbital plane (and the target inclination) of an
/// orbit type.
pub fn orbit_plane(orbit_type: OrbitType) -> (r: OrbitPlane)
    ensures
        r == spec_orbit_plane(orbit_type),
{
    match orbit_type {
        OrbitType::CircularEquatorial
        | OrbitType::Geostationary
        | OrbitType::Graveyard
        | OrbitType::RetrogradeEquatorial
        | OrbitType::EllipticalEquatorial => OrbitPlane::Equatorial,
        OrbitType::LowCircular
        | OrbitType::Tundra
        | OrbitType::EllipticalInclined
        | OrbitType::Molniya => OrbitPlane::Inclined,
        OrbitType::CircularPolar => OrbitPlane::Polar,
        OrbitType::EclipticPrograde | OrbitType::EclipticRetrograde => OrbitPlane::Ecliptic,
    }
}

/// Every orbit type is exactly one of circular or elliptical.
pub proof fn lemma_circular_elliptical_partition(t: OrbitType)
    ensures
        spec_is_circular(t) != spec_is_elliptical(t),
{
}

/// Orbit types whose altitude is computed from the planet are circular, and so are the
/// retrograde and ecliptic ones.
pub proof fn lemma_computed_retrograde_ecliptic_are_circular(t: OrbitType)
    ensures
        spec_uses_computed_altitude(t) ==> spec_is_circular(t),
        spec_is_retrograde(t) ==> spec_is_circular(t),
        spec_uses_star_obliquity(t) ==> spec_is_circular(t),
{
}

/// The inclination UI field is shown exactly for the orbit types whose plane is set by the
/// inclination parameter; retrograde and ecliptic orbits never use it.
pub proof fn lemma_inclination_param_iff_inclined_plane(t: OrbitType)
    ensures
        spec_uses_inclination(t) <==> spec_orbit_plane(t) == OrbitPlane::Inclined,
        spec_uses_star_obliquity(t) <==> spec_orbit_plane(t) == OrbitPlane::Ecliptic,
        spec_is_retrograde(t) ==> !spec_uses_inclination(t),
{
}

/// Only the two counter-rotating families are retrograde: the retrograde equatorial orbit and
/// the retrograde ecliptic orbit, each the reverse of the prograde circular orbit in the same
/// plane. Orbits whose altitude comes from the planet's spin (geostationary, graveyard,
/// tundra) co-rotate with the planet and are never retrograde, nor is any prograde, polar,
/// inclined or elliptical family.
pub proof fn lemma_retrograde_families(t: OrbitType)
    ensures
        spec_is_retrograde(t) <==> (t == OrbitType::RetrogradeEquatorial || t
            == OrbitType::EclipticRetrograde),
        spec_is_retrograde(t) ==> spec_is_circular(t) && !spec_uses_computed_altitude(t)
            && !spec_uses_inclination(t),
        spec_is_retrograde(t) ==> (spec_orbit_plane(t) == OrbitPlane::Equatorial
            || spec_orbit_plane(t) == OrbitPlane::Ecliptic),
        spec_uses_computed_altitude(t) ==> !spec_is_retrograde(t),
        spec_is_elliptical(t) ==> !spec_is_retrograde(t),
        !spec_is_retrograde(OrbitType::CircularEquatorial),
        !spec_is_retrograde(OrbitType::EclipticPrograde),
        !spec_is_retrograde(OrbitType::Geostationary),
        !spec_is_retrograde(OrbitType::Graveyard),
        spec_is_retrograde(OrbitType::RetrogradeEquatorial),
        spec_is_retrograde(OrbitType::EclipticRetrograde),
        spec_orbit_plane(OrbitType::RetrogradeEquatorial) == spec_orbit_plane(
            OrbitType::CircularEquatorial,
        ),
        spec_orbit_plane(OrbitType::EclipticRetrograde) == spec_orbit_plane(
            OrbitType::EclipticPrograde,
        ),
{
}

/// The families behind each classifier: elliptical parameters for the two ellipses and
/// Molniya; an inclination field for low circular, inclined elliptical, tundra and Molniya;
/// an altitude fixed by the planet for geostationary, graveyard and tundra; the star's
/// obliquity for the two ecliptic orbits; and the polar plane for the polar orbit alone.
pub proof fn lemma_orbit_family_members(t: OrbitType)
    ensures
        spec_is_elliptical(t) <==> (t == OrbitType::EllipticalEquatorial || t
            == OrbitType::EllipticalInclined || t == OrbitType::Molniya),
        spec_uses_inclination(t) <==> (t == OrbitType::LowCircular || t
            == OrbitType::EllipticalInclined || t == OrbitType::Tundra || t
            == OrbitType::Molniya),
        spec_uses_computed_altitude(t) <==> (t == OrbitType::Geostationary || t
            == OrbitType::Graveyard || t == OrbitType::Tundra),
        spec_uses_star_obliquity(t) <==> (t == OrbitType::EclipticPrograde || t
            == OrbitType::EclipticRetrograde),
        spec_orbit_plane(t) == OrbitPlane::Polar <==> t == OrbitType::CircularPolar,
        spec_orbit_plane(t) == OrbitPlane::Equatorial <==> (t == OrbitType::CircularEquatorial
            || t == OrbitType::Geostationary || t == OrbitType::Graveyard || t
            == OrbitType::RetrogradeEquatorial || t == OrbitType::EllipticalEquatorial),
{
}

} // verus!
