use super_ferris::entity_manager::EntityManager;
use super_ferris::systems::logging_system;

/// Test if logging works on a single entity.
#[test]
fn test_logging_entity() {
    let mut entity_mgr = EntityManager::new();
    let entity_id = entity_mgr.create_entity();
    entity_mgr.add_log_comp(entity_id);
    entity_mgr.set_use_log(entity_id);

    let log_comp = entity_mgr.get_log_comp(entity_id);
    log_comp.message = String::from("Logging test.");
    log_comp.has_info = true;

    logging_system::update_entity(log_comp);
    assert_eq!(log_comp.has_info, false);
}

/// Test if logging works across the entire entity manager.
#[test]
fn test_logging_entities() {
    let mut entity_mgr = EntityManager::new();
    let entity_id = entity_mgr.create_entity();
    entity_mgr.add_log_comp(entity_id);
    entity_mgr.set_use_log(entity_id);

    let log_comp = entity_mgr.get_log_comp(entity_id);
    log_comp.message = String::from("Logging test.");
    log_comp.has_info = true;

    logging_system::update(&mut entity_mgr);
    assert_eq!(entity_mgr.get_log_comp(entity_id).has_info, false);
}

#[test]
fn update_entity_returns_message_once() {
    let mut entity_mgr = EntityManager::new();
    let id = entity_mgr.create_entity();
    entity_mgr.add_log_comp(id);
    let log_comp = entity_mgr.get_log_comp(id);
    log_comp.message = String::from("hello");
    log_comp.has_info = true;
    assert_eq!(logging_system::update_entity(log_comp), Some(String::from("hello")));
    assert_eq!(logging_system::update_entity(log_comp), None);
    assert_eq!(log_comp.message, "hello");
}

#[test]
fn second_logging_pass_emits_nothing() {
    let mut entity_mgr = EntityManager::new();
    let a = entity_mgr.create_entity();
    let b = entity_mgr.create_entity();
    entity_mgr.add_log_comp(a);
    entity_mgr.add_log_comp(b);
    entity_mgr.get_log_comp(a).message = String::from("first");
    entity_mgr.get_log_comp(a).has_info = true;
    entity_mgr.get_log_comp(b).message = String::from("second");
    entity_mgr.get_log_comp(b).has_info = true;

    let first = logging_system::update(&mut entity_mgr);
    assert_eq!(first, vec![String::from("first"), String::from("second")]);
    assert!(!entity_mgr.get_log_comp_immut(a).has_info);
    assert!(!entity_mgr.get_log_comp_immut(b).has_info);

    let second = logging_system::update(&mut entity_mgr);
    assert!(second.is_empty());
}

#[test]
fn logging_skips_entities_that_are_gone() {
    let mut entity_mgr = EntityManager::new();
    let a = entity_mgr.create_entity();
    entity_mgr.add_log_comp(a);
    entity_mgr.get_log_comp(a).message = String::from("lost");
    entity_mgr.get_log_comp(a).has_info = true;
    entity_mgr.destroy_entity(a);
    assert!(logging_system::update(&mut entity_mgr).is_empty());
}
