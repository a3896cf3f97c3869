use orbital_movement_gdextension::{ProjectError, ThrustDirection, thrust_directions_from_flags, thrust_flags};

#[test]
fn from_bit_parses_each_single_flag() {
    assert_eq!(ThrustDirection::from_bit(1), Some(ThrustDirection::Prograde));
    assert_eq!(ThrustDirection::from_bit(2), Some(ThrustDirection::Retrograde));
    assert_eq!(ThrustDirection::from_bit(4), Some(ThrustDirection::Left));
    assert_eq!(ThrustDirection::from_bit(8), Some(ThrustDirection::Right));
    assert_eq!(ThrustDirection::from_bit(16), Some(ThrustDirection::Up));
    assert_eq!(ThrustDirection::from_bit(32), Some(ThrustDirection::Down));
}

#[test]
fn from_bit_rejects_other_values() {
    for bit in [0_u32, 3, 5, 6, 7, 12, 33, 48, 64, u32::MAX] {
        assert_eq!(ThrustDirection::from_bit(bit), None, "{bit}");
    }
}

#[test]
fn bit_round_trips_through_from_bit() {
    for direction in ThrustDirection::all() {
        assert_eq!(ThrustDirection::from_bit(direction.bit()), Some(direction));
    }
}

#[test]
fn flag_constants_match_direction_bits() {
    assert_eq!(thrust_flags::PROGRADE, ThrustDirection::Prograde.bit());
    assert_eq!(thrust_flags::RETROGRADE, ThrustDirection::Retrograde.bit());
    assert_eq!(thrust_flags::LEFT, ThrustDirection::Left.bit());
    assert_eq!(thrust_flags::RIGHT, ThrustDirection::Right.bit());
    assert_eq!(thrust_flags::UP, ThrustDirection::Up.bit());
    assert_eq!(thrust_flags::DOWN, ThrustDirection::Down.bit());
    assert_eq!(
        [
                thrust_flags::PROGRADE,
                thrust_flags::RETROGRADE,
                thrust_flags::LEFT,
                thrust_flags::RIGHT,
                thrust_flags::UP,
                thrust_flags::DOWN
            ],
        [1, 2, 4, 8, 16, 32]
    );
}

#[test]
fn all_directions_in_display_order() {
    assert_eq!(
        ThrustDirection::all(),
        [
            ThrustDirection::Prograde,
            ThrustDirection::Retrograde,
            ThrustDirection::Left,
            ThrustDirection::Right,
            ThrustDirection::Up,
            ThrustDirection::Down,
        ]
    );
}

#[test]
fn zero_flags_is_an_error() {
    assert_eq!(
        thrust_directions_from_flags(0),
        Err(ProjectError::InvalidVector("at least one thrust direction flag is required"))
    );
}

#[test]
fn prograde_and_up_select_both_in_order() {
    let selected =
        thrust_directions_from_flags(thrust_flags::UP | thrust_flags::PROGRADE).unwrap();
    assert_eq!(selected, vec![ThrustDirection::Prograde, ThrustDirection::Up]);
}

#[test]
fn all_flags_select_all_directions() {
    let selected = thrust_directions_from_flags(63).unwrap();
    assert_eq!(selected, ThrustDirection::all().to_vec());
}

#[test]
fn opposing_flags_are_both_selected() {
    let selected =
        thrust_directions_from_flags(thrust_flags::LEFT | thrust_flags::RIGHT).unwrap();
    assert_eq!(selected, vec![ThrustDirection::Left, ThrustDirection::Right]);
}

#[test]
fn unknown_bits_select_nothing() {
    assert_eq!(thrust_directions_from_flags(64).unwrap(), Vec::<ThrustDirection>::new());
    assert_eq!(
        thrust_directions_from_flags(64 | thrust_flags::DOWN).unwrap(),
        vec![ThrustDirection::Down]
    );
}

#[test]
fn single_flag_selects_only_its_direction() {
    for direction in ThrustDirection::all() {
        assert_eq!(thrust_directions_from_flags(direction.bit()).unwrap(), vec![direction]);
    }
}
