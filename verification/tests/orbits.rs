use orbital_movement_gdextension::orbits::OrbitPlane;
use orbital_movement_gdextension::{
    OrbitType, is_circular_orbit_type, is_elliptical_orbit_type, is_retrograde_orbit,
    orbit_plane, orbit_uses_computed_altitude, orbit_uses_elliptical_params,
    orbit_uses_inclination_param, orbit_uses_star_obliquity,
};

const ALL_ORBITS: [OrbitType; 12] = [
    OrbitType::CircularEquatorial,
    OrbitType::CircularPolar,
    OrbitType::Geostationary,
    OrbitType::LowCircular,
    OrbitType::RetrogradeEquatorial,
    OrbitType::EllipticalEquatorial,
    OrbitType::EclipticPrograde,
    OrbitType::EclipticRetrograde,
    OrbitType::EllipticalInclined,
    OrbitType::Tundra,
    OrbitType::Molniya,
    OrbitType::Graveyard,
];

#[test]
fn orbit_ui_metadata_matches_orbit_families() {
    assert!(orbit_uses_elliptical_params(OrbitType::Molniya));
    assert!(orbit_uses_inclination_param(OrbitType::LowCircular));
    assert!(orbit_uses_computed_altitude(OrbitType::Geostationary));
    assert!(!orbit_uses_elliptical_params(OrbitType::CircularEquatorial));
}

#[test]
fn elliptical_families_are_exactly_three() {
    let elliptical: Vec<OrbitType> = ALL_ORBITS
        .iter()
        .copied()
        .filter(|t| is_elliptical_orbit_type(*t))
        .collect();
    assert_eq!(
        elliptical,
        vec![OrbitType::EllipticalEquatorial, OrbitType::EllipticalInclined, OrbitType::Molniya]
    );
}

#[test]
fn every_orbit_is_circular_or_elliptical_not_both() {
    for t in ALL_ORBITS {
        assert_ne!(is_circular_orbit_type(t), is_elliptical_orbit_type(t), "{t:?}");
        assert_eq!(orbit_uses_elliptical_params(t), is_elliptical_orbit_type(t), "{t:?}");
    }
}

#[test]
fn computed_altitude_orbits_are_geo_graveyard_tundra() {
    for t in ALL_ORBITS {
        let expected = matches!(
            t,
            OrbitType::Geostationary | OrbitType::Graveyard | OrbitType::Tundra
        );
        assert_eq!(orbit_uses_computed_altitude(t), expected, "{t:?}");
        if expected {
            assert!(is_circular_orbit_type(t));
        }
    }
}

#[test]
fn retrograde_orbits_are_the_two_retrograde_circles() {
    assert!(is_retrograde_orbit(OrbitType::RetrogradeEquatorial));
    assert!(is_retrograde_orbit(OrbitType::EclipticRetrograde));
    assert!(!is_retrograde_orbit(OrbitType::EclipticPrograde));
    assert!(!is_retrograde_orbit(OrbitType::CircularEquatorial));
    for t in ALL_ORBITS {
        if is_retrograde_orbit(t) {
            assert!(!orbit_uses_inclination_param(t));
            assert!(is_circular_orbit_type(t));
        }
    }
}

#[test]
fn inclination_field_shown_exactly_for_inclined_planes() {
    for t in ALL_ORBITS {
        assert_eq!(
            orbit_uses_inclination_param(t),
            orbit_plane(t) == OrbitPlane::Inclined,
            "{t:?}"
        );
        assert_eq!(
            orbit_uses_star_obliquity(t),
            orbit_plane(t) == OrbitPlane::Ecliptic,
            "{t:?}"
        );
    }
}

#[test]
fn orbit_planes_of_each_family() {
    assert_eq!(orbit_plane(OrbitType::CircularEquatorial), OrbitPlane::Equatorial);
    assert_eq!(orbit_plane(OrbitType::Geostationary), OrbitPlane::Equatorial);
    assert_eq!(orbit_plane(OrbitType::Graveyard), OrbitPlane::Equatorial);
    assert_eq!(orbit_plane(OrbitType::RetrogradeEquatorial), OrbitPlane::Equatorial);
    assert_eq!(orbit_plane(OrbitType::EllipticalEquatorial), OrbitPlane::Equatorial);
    assert_eq!(orbit_plane(OrbitType::LowCircular), OrbitPlane::Inclined);
    assert_eq!(orbit_plane(OrbitType::Tundra), OrbitPlane::Inclined);
    assert_eq!(orbit_plane(OrbitType::EllipticalInclined), OrbitPlane::Inclined);
    assert_eq!(orbit_plane(OrbitType::Molniya), OrbitPlane::Inclined);
    assert_eq!(orbit_plane(OrbitType::CircularPolar), OrbitPlane::Polar);
    assert_eq!(orbit_plane(OrbitType::EclipticPrograde), OrbitPlane::Ecliptic);
    assert_eq!(orbit_plane(OrbitType::EclipticRetrograde), OrbitPlane::Ecliptic);
}

#[test]
fn ecliptic_orbits_take_star_obliquity() {
    assert!(orbit_uses_star_obliquity(OrbitType::EclipticPrograde));
    assert!(orbit_uses_star_obliquity(OrbitType::EclipticRetrograde));
    assert!(!orbit_uses_star_obliquity(OrbitType::LowCircular));
    assert!(!orbit_uses_star_obliquity(OrbitType::Molniya));
}
