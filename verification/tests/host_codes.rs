use orbital_movement_gdextension::{
    BodyId, BodyState, GdBodyState, GdOrbitType, OrbitType, TransferAvailability,
    TransferBurnStatus, body_id_from_i64, transfer_availability_code, transfer_status_code,
};

#[test]
fn orbit_codes_follow_the_documented_table() {
    let expected = [
        (0, GdOrbitType::CircularEquatorial, OrbitType::CircularEquatorial),
        (1, GdOrbitType::CircularPolar, OrbitType::CircularPolar),
        (2, GdOrbitType::Geostationary, OrbitType::Geostationary),
        (3, GdOrbitType::LowCircular, OrbitType::LowCircular),
        (4, GdOrbitType::RetrogradeEquatorial, OrbitType::RetrogradeEquatorial),
        (5, GdOrbitType::EllipticalEquatorial, OrbitType::EllipticalEquatorial),
        (6, GdOrbitType::EclipticPrograde, OrbitType::EclipticPrograde),
        (7, GdOrbitType::EclipticRetrograde, OrbitType::EclipticRetrograde),
        (8, GdOrbitType::EllipticalInclined, OrbitType::EllipticalInclined),
        (9, GdOrbitType::Tundra, OrbitType::Tundra),
        (10, GdOrbitType::Molniya, OrbitType::Molniya),
        (11, GdOrbitType::Graveyard, OrbitType::Graveyard),
    ];
    for (code, gd, orbit) in expected {
        assert_eq!(GdOrbitType::from_i64(code), Some(gd));
        assert_eq!(gd.to_i64(), code);
        assert_eq!(OrbitType::from(gd), orbit);
    }
}

#[test]
fn orbit_codes_outside_the_table_are_rejected() {
    for code in [-1_i64, 12, 100, i64::MIN, i64::MAX] {
        assert_eq!(GdOrbitType::from_i64(code), None, "{code}");
    }
}

#[test]
fn body_state_codes() {
    assert_eq!(GdBodyState::from(BodyState::Flying), GdBodyState::Flying);
    assert_eq!(GdBodyState::from(BodyState::SurfaceContact), GdBodyState::SurfaceContact);
    assert_eq!(GdBodyState::Flying.to_i64(), 0);
    assert_eq!(GdBodyState::SurfaceContact.to_i64(), 1);
    assert_eq!(BodyState::default(), BodyState::Flying);
}

#[test]
fn host_body_ids() {
    assert_eq!(body_id_from_i64(-1), None);
    assert_eq!(body_id_from_i64(i64::MIN), None);
    assert_eq!(body_id_from_i64(0), Some(BodyId(0)));
    assert_eq!(body_id_from_i64(7), Some(BodyId(7)));
    assert_eq!(body_id_from_i64(1 << 32), Some(BodyId(0)));
    assert_eq!(body_id_from_i64((1 << 32) + 5), Some(BodyId(5)));
}

#[test]
fn transfer_status_and_availability_codes() {
    assert_eq!(transfer_status_code(TransferBurnStatus::Idle), 0);
    assert_eq!(transfer_status_code(TransferBurnStatus::Burning), 1);
    assert_eq!(transfer_status_code(TransferBurnStatus::Finished), 2);
    assert_eq!(transfer_availability_code(TransferAvailability::Available), 0);
    assert_eq!(transfer_availability_code(TransferAvailability::Impractical), 1);
    assert_eq!(transfer_availability_code(TransferAvailability::Unavailable), 2);
}
