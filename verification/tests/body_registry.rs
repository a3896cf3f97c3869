use orbital_movement_gdextension::{BodyId, BodyRegistry, ProjectError};

#[test]
fn ids_start_at_one_and_increase() {
    let mut registry = BodyRegistry::new();
    assert_eq!(registry.next_id(), 1);
    let a = registry.insert("a");
    let b = registry.insert("b");
    let c = registry.insert("c");
    assert_eq!((a, b, c), (BodyId(1), BodyId(2), BodyId(3)));
    assert_eq!(registry.len(), 3);
    assert_eq!(registry.next_id(), 4);
}

#[test]
fn lookup_finds_each_body_by_id() {
    let mut registry = BodyRegistry::new();
    let a = registry.insert(10.0_f64);
    let b = registry.insert(20.0_f64);
    let ia = registry.index_of(a).unwrap();
    let ib = registry.index_of(b).unwrap();
    assert_eq!(*registry.body(ia), 10.0);
    assert_eq!(*registry.body(ib), 20.0);
    assert_eq!(registry.id_at(ia), a);
    assert_eq!(registry.id_at(ib), b);
}

#[test]
fn unknown_id_is_body_not_found() {
    let mut registry = BodyRegistry::new();
    registry.insert(1_u8);
    assert_eq!(registry.index_of(BodyId(2)), Err(ProjectError::BodyNotFound(2)));
    assert_eq!(registry.index_of(BodyId(0)), Err(ProjectError::BodyNotFound(0)));
}

#[test]
fn body_mut_changes_only_that_body() {
    let mut registry = BodyRegistry::new();
    let a = registry.insert(1_i32);
    let b = registry.insert(2_i32);
    let ib = registry.index_of(b).unwrap();
    *registry.body_mut(ib) = 42;
    assert_eq!(*registry.body(registry.index_of(a).unwrap()), 1);
    assert_eq!(*registry.body(ib), 42);
    assert_eq!(registry.id_at(ib), b);
}

#[test]
fn clear_forgets_bodies_and_restarts_ids() {
    let mut registry = BodyRegistry::new();
    let a = registry.insert('x');
    registry.insert('y');
    registry.clear();
    assert_eq!(registry.len(), 0);
    assert_eq!(registry.index_of(a), Err(ProjectError::BodyNotFound(1)));
    assert_eq!(registry.insert('z'), BodyId(1));
}
