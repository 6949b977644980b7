//! The entity record of the population store.

use covid_sim::entities::Entity;

#[test]
fn entity_new_carries_index_and_slots() {
    let e = Entity::new(5);
    assert_eq!(e.id(), 5);
    assert_eq!(e.component_count(), 2);
}

#[test]
fn entity_add_component_changes_nothing() {
    let mut e = Entity::new(0);
    e.add_component();
    e.add_component();
    assert_eq!(e.id(), 0);
    assert_eq!(e.component_count(), 2);
}
