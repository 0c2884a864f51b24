use super_ferris::components::Component;
use super_ferris::entity_manager::{Entity, EntityManager};

#[test]
fn fresh_entity_has_no_capability_and_sentinel_slots() {
    let mut m = EntityManager::new();
    for expected in 0..5u32 {
        let id = m.create_entity();
        assert_eq!(id, expected);
        let e = m.entity(id);
        assert_eq!(e.id, id);
        assert!(e.exists);
        assert!(!e.use_log && !e.use_draw && !e.use_player);
        assert_eq!((e.log_ind, e.sprite_ind, e.pos_ind), (0, 0, 0));
    }
    assert_eq!(m.entity_count(), 5);
}

#[test]
fn uninit_entity_is_not_live() {
    let e = Entity::uninit();
    assert!(!e.exists);
    assert!(!e.is_live());
}

#[test]
fn attached_components_have_defaults() {
    let mut m = EntityManager::new();
    let id = m.create_entity();
    m.add_pos_comp(id);
    m.add_sprite_comp(id);
    m.add_log_comp(id);

    let p = m.get_pos_comp_immut(id);
    assert!(p.exists);
    assert_eq!((p.x, p.y, p.spd_x, p.spd_y, p.prec_x, p.prec_y), (0, 0, 0, 0, 0, 0));
    assert_eq!(p.id, 1);

    let s = m.get_sprite_comp_immut(id);
    assert!(s.exists);
    assert_eq!(s.tex_name, "black");
    assert_eq!(s.sprite_index, 0);
    assert!(s.should_update);
    assert!(s.tilemap.is_none());
    assert_eq!(s.id, 1);

    let l = m.get_log_comp_immut(id);
    assert!(l.exists);
    assert!(!l.has_info);
    assert_eq!(l.message, "");
    assert_eq!(l.id, 1);
}

#[test]
fn component_slot_zero_is_never_handed_out() {
    let mut m = EntityManager::new();
    let a = m.create_entity();
    let b = m.create_entity();
    m.add_sprite_comp(a);
    m.add_sprite_comp(b);
    assert_eq!(m.entity(a).sprite_ind, 1);
    assert_eq!(m.entity(b).sprite_ind, 2);
    assert_eq!(m.sprite_count(), 3);
}

#[test]
fn reading_before_attach_gives_sentinel() {
    let mut m = EntityManager::new();
    let id = m.create_entity();
    let s = m.get_sprite_comp_immut(id);
    assert_eq!(s.id, 0);
    assert!(s.exists);
    assert_eq!(s.tex_name, "black");
}

#[test]
fn freed_entities_are_reused_in_ascending_order() {
    let mut m = EntityManager::new();
    for _ in 0..6 {
        m.create_entity();
    }
    m.destroy_entity(4);
    m.destroy_entity(1);
    m.destroy_entity(3);
    assert_eq!(m.create_entity(), 1);
    assert_eq!(m.create_entity(), 3);
    assert_eq!(m.create_entity(), 4);
    assert_eq!(m.create_entity(), 6);
    assert_eq!(m.entity_count(), 7);
}

#[test]
fn reused_entity_is_reset() {
    let mut m = EntityManager::new();
    let id = m.create_entity();
    m.set_use_draw(id);
    m.set_use_player(id);
    m.set_use_log(id);
    m.add_pos_comp(id);
    m.destroy_entity(id);
    let again = m.create_entity();
    assert_eq!(again, id);
    let e = m.entity(again);
    assert!(!e.use_draw && !e.use_player && !e.use_log);
    assert_eq!(e.pos_ind, 0);
}

#[test]
fn freed_component_slots_are_reused_with_defaults() {
    let mut m = EntityManager::new();
    let a = m.create_entity();
    let b = m.create_entity();
    m.add_pos_comp(a);
    m.add_pos_comp(b);
    m.get_pos_comp(a).x = 77;
    m.get_pos_comp(a).spd_x = 500;
    m.destroy_entity(a);
    let c = m.create_entity();
    m.add_pos_comp(c);
    assert_eq!(m.entity(c).pos_ind, 1);
    let p = m.get_pos_comp_immut(c);
    assert_eq!((p.x, p.spd_x), (0, 0));
    assert_eq!(m.pos_count(), 3);
}

#[test]
fn adding_twice_leaves_the_first_slot_live() {
    let mut m = EntityManager::new();
    let id = m.create_entity();
    m.add_log_comp(id);
    m.add_log_comp(id);
    assert_eq!(m.entity(id).log_ind, 2);
    assert_eq!(m.log_count(), 3);
    let other = m.create_entity();
    m.add_log_comp(other);
    assert_eq!(m.entity(other).log_ind, 3);
}

#[test]
fn capability_setters_touch_only_their_flag() {
    let mut m = EntityManager::new();
    let id = m.create_entity();
    m.set_use_draw(id);
    let e = m.entity(id);
    assert!(e.use_draw && !e.use_player && !e.use_log);
    m.set_use_player(id);
    assert!(m.entity(id).use_player);
    m.set_use_log(id);
    assert!(m.entity(id).use_log);
}
