use super_ferris::entity_manager::EntityManager;
use super_ferris::systems::draw_system::{self, RenderBook, RenderCall};

fn calls_text(calls: &[RenderCall]) -> Vec<String> {
    calls.iter().map(|c| format!("{:?}", c)).collect()
}

#[test]
fn first_draw_of_a_sprite() {
    let mut m = EntityManager::new();
    let id = m.create_entity();
    m.add_pos_comp(id);
    m.add_sprite_comp(id);
    m.get_sprite_comp(id).tex_name = String::from("assets/ferris.png");
    m.set_use_draw(id);
    m.get_pos_comp(id).x = 12;
    m.get_pos_comp(id).y = 34;

    let mut book = RenderBook::new();
    let calls = draw_system::update(&mut m, &mut book);
    assert_eq!(calls.len(), 4);
    assert!(matches!(calls[0], RenderCall::CreateQuad { quad: 0 }));
    match &calls[1] {
        RenderCall::LoadTexture { name, texture } => {
            assert_eq!(name, "assets/ferris.png");
            assert_eq!(*texture, 1);
        },
        other => panic!("unexpected {:?}", other),
    }
    assert!(matches!(calls[2], RenderCall::AttachSprite { quad: 0, texture: 1, sprite_index: 0 }));
    assert!(matches!(calls[3], RenderCall::SetQuadPos { quad: 0, x: 12, y: 34 }));
    assert!(!m.get_sprite_comp_immut(id).should_update);
    assert_eq!(m.get_sprite_comp_immut(id).quad_id, 0);
    assert_eq!(book.quad_count(), 1);
    assert_eq!(book.texture_count(), 2);
}

#[test]
fn clean_sprites_only_move() {
    let mut m = EntityManager::new();
    let id = m.create_entity();
    m.add_pos_comp(id);
    m.add_sprite_comp(id);
    m.set_use_draw(id);
    let mut book = RenderBook::new();
    draw_system::update(&mut m, &mut book);
    m.get_pos_comp(id).x = 5;
    let calls = draw_system::update(&mut m, &mut book);
    assert_eq!(calls.len(), 1);
    assert!(matches!(calls[0], RenderCall::SetQuadPos { quad: 0, x: 5, y: 0 }));
}

#[test]
fn dirty_again_gets_a_new_quad_and_the_cached_texture() {
    let mut m = EntityManager::new();
    let a = m.create_entity();
    let b = m.create_entity();
    for id in [a, b] {
        m.add_pos_comp(id);
        m.add_sprite_comp(id);
        m.set_use_draw(id);
    }
    m.get_sprite_comp(a).tex_name = String::from("one.png");
    m.get_sprite_comp(b).tex_name = String::from("two.png");
    let mut book = RenderBook::new();
    draw_system::update(&mut m, &mut book);
    assert_eq!(book.quad_count(), 2);
    assert_eq!(book.texture_count(), 3);

    m.get_sprite_comp(a).tex_name = String::from("two.png");
    m.get_sprite_comp(a).should_update = true;
    let calls = draw_system::update(&mut m, &mut book);
    assert_eq!(
        calls_text(&calls),
        vec![
            "CreateQuad { quad: 2 }",
            "LoadTexture { name: \"two.png\", texture: 2 }",
            "AttachSprite { quad: 2, texture: 2, sprite_index: 0 }",
            "SetQuadPos { quad: 2, x: 0, y: 0 }",
            "SetQuadPos { quad: 1, x: 0, y: 0 }",
        ]
    );
    assert_eq!(book.texture_count(), 3);
}

#[test]
fn tile_maps_are_attached_whole() {
    let mut m = EntityManager::new();
    let id = m.create_entity();
    m.add_pos_comp(id);
    m.add_sprite_comp(id);
    m.set_use_draw(id);
    let s = m.get_sprite_comp(id);
    s.tilemap = Some(vec![1, 2, 3, 4, 5, 6]);
    s.tilemap_width = 3;
    s.tilemap_height = 2;
    let mut book = RenderBook::new();
    let calls = draw_system::update(&mut m, &mut book);
    match &calls[2] {
        RenderCall::AttachTilemap { quad, texture, tiles, width, height } => {
            assert_eq!((*quad, *texture, *width, *height), (0, 0, 3, 2));
            assert_eq!(tiles, &vec![1, 2, 3, 4, 5, 6]);
        },
        other => panic!("unexpected {:?}", other),
    }
    assert_eq!(book.texture_count(), 1);
}

#[test]
fn entities_without_draw_are_skipped() {
    let mut m = EntityManager::new();
    let id = m.create_entity();
    m.add_sprite_comp(id);
    let mut book = RenderBook::new();
    assert!(draw_system::update(&mut m, &mut book).is_empty());
    assert!(m.get_sprite_comp_immut(id).should_update);
}
