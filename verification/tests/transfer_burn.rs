use orbital_movement_gdextension::{
    BodyId, GuidedTransfer, OrbitType, TransferBurnStatus, TransferBurnTracker,
};

#[derive(Debug, Clone, Copy, PartialEq)]
struct Target {
    altitude: f64,
    remaining: f64,
}

fn target(altitude: f64, remaining: f64) -> Target {
    Target { altitude, remaining }
}

#[test]
fn unknown_body_is_idle() {
    let tracker: TransferBurnTracker<Target> = TransferBurnTracker::new();
    assert_eq!(tracker.status(BodyId(1)), TransferBurnStatus::Idle);
    assert!(!tracker.lowering_altitude(BodyId(1)));
    assert!(tracker.target(BodyId(1)).is_none());
    assert!(tracker.body_ids().is_empty());
    assert_eq!(TransferBurnStatus::default(), TransferBurnStatus::Idle);
}

#[test]
fn started_transfer_is_burning_then_finished() {
    let mut tracker = TransferBurnTracker::new();
    tracker.start(BodyId(3), OrbitType::CircularEquatorial, target(0.3, 0.01), false);
    assert_eq!(tracker.status(BodyId(3)), TransferBurnStatus::Burning);
    tracker.finish(BodyId(3));
    assert_eq!(tracker.status(BodyId(3)), TransferBurnStatus::Finished);
    let (orbit, data) = tracker.target(BodyId(3)).unwrap();
    assert_eq!(orbit, OrbitType::CircularEquatorial);
    assert_eq!(*data, target(0.3, 0.01));
}

#[test]
fn finishing_without_transfer_keeps_body_idle() {
    let mut tracker: TransferBurnTracker<Target> = TransferBurnTracker::new();
    tracker.finish(BodyId(9));
    assert_eq!(tracker.status(BodyId(9)), TransferBurnStatus::Idle);
    assert!(tracker.body_ids().is_empty());
}

#[test]
fn clear_makes_body_idle_and_leaves_others() {
    let mut tracker = TransferBurnTracker::new();
    tracker.start(BodyId(1), OrbitType::LowCircular, target(0.1, 0.02), false);
    tracker.start(BodyId(2), OrbitType::Geostationary, target(5.6, 0.5), false);
    tracker.finish(BodyId(2));
    tracker.clear(BodyId(1));
    assert_eq!(tracker.status(BodyId(1)), TransferBurnStatus::Idle);
    assert_eq!(tracker.status(BodyId(2)), TransferBurnStatus::Finished);
    assert_eq!(tracker.body_ids(), vec![BodyId(2)]);
}

#[test]
fn clear_all_makes_every_body_idle() {
    let mut tracker = TransferBurnTracker::new();
    tracker.start(BodyId(1), OrbitType::LowCircular, target(0.1, 0.02), true);
    tracker.start(BodyId(2), OrbitType::Tundra, target(5.6, 0.5), false);
    tracker.clear_all();
    assert_eq!(tracker.status(BodyId(1)), TransferBurnStatus::Idle);
    assert_eq!(tracker.status(BodyId(2)), TransferBurnStatus::Idle);
    assert!(tracker.body_ids().is_empty());
}

#[test]
fn restarting_replaces_the_transfer() {
    let mut tracker = TransferBurnTracker::new();
    tracker.start(BodyId(4), OrbitType::LowCircular, target(0.1, 0.02), true);
    tracker.finish(BodyId(4));
    tracker.start(BodyId(4), OrbitType::Molniya, target(2.0, 0.3), false);
    assert_eq!(tracker.status(BodyId(4)), TransferBurnStatus::Burning);
    assert!(!tracker.lowering_altitude(BodyId(4)));
    assert_eq!(tracker.target(BodyId(4)).unwrap().0, OrbitType::Molniya);
    assert_eq!(tracker.body_ids(), vec![BodyId(4)]);
}

#[test]
fn lowering_flag_and_target_updates() {
    let mut tracker = TransferBurnTracker::new();
    tracker.start(BodyId(5), OrbitType::CircularEquatorial, target(0.05, 0.02), true);
    assert!(tracker.lowering_altitude(BodyId(5)));
    tracker.set_target(BodyId(5), target(0.05, 0.001));
    assert_eq!(*tracker.target(BodyId(5)).unwrap().1, target(0.05, 0.001));
    assert_eq!(tracker.status(BodyId(5)), TransferBurnStatus::Burning);
    tracker.set_target(BodyId(6), target(1.0, 1.0));
    assert!(tracker.target(BodyId(6)).is_none());
}

#[test]
fn body_ids_lists_each_registered_body_once() {
    let mut tracker = TransferBurnTracker::new();
    for id in [7_u32, 3, 11, 3] {
        tracker.start(BodyId(id), OrbitType::CircularPolar, target(0.1, 0.1), false);
    }
    let mut ids = tracker.body_ids();
    ids.sort_by_key(|id| id.0);
    assert_eq!(ids, vec![BodyId(3), BodyId(7), BodyId(11)]);
}

#[test]
fn guided_transfer_new_and_finish() {
    let mut transfer = GuidedTransfer::new(OrbitType::CircularEquatorial, target(0.1, 0.01), false);
    assert_eq!(transfer.status, TransferBurnStatus::Burning);
    transfer.finish();
    assert_eq!(transfer.status, TransferBurnStatus::Finished);
    assert_eq!(transfer.target, target(0.1, 0.01));
    assert!(!transfer.lowering_altitude);
}
