use super_ferris::game::{Game, BLOCK_SPRITE};
use super_ferris::input_manager::{ButtonCode, ButtonState};
use super_ferris::level::block_positions;
use super_ferris::systems::draw_system::RenderCall;

#[test]
fn level_text_gives_block_positions() {
    assert_eq!(block_positions("x.x\n.x\n"), vec![(0, 0), (32, 0), (16, 16)]);
    assert_eq!(block_positions(""), vec![]);
    assert_eq!(block_positions("\n\n  x"), vec![(32, 32)]);
}

#[test]
fn load_level_spawns_blocks() {
    let mut game = Game::new();
    let player = game.spawn_player();
    let ids = game.load_level("..x\nxx\n");
    assert_eq!(ids.len(), 3);
    let expected = [(32, 0), (0, 16), (16, 16)];
    for (id, (x, y)) in ids.iter().zip(expected.iter()) {
        let e = game.entity_mgr.entity(*id);
        assert!(e.use_draw && !e.use_player);
        let p = game.entity_mgr.get_pos_comp_immut(*id);
        assert_eq!((p.x, p.y), (*x, *y));
        let s = game.entity_mgr.get_sprite_comp_immut(*id);
        assert_eq!(s.tex_name, "assets/tileset.png");
        assert_eq!(s.sprite_index, BLOCK_SPRITE);
    }
    let e = game.entity_mgr.entity(player);
    assert!(e.use_draw && e.use_player);
    assert_eq!(game.entity_mgr.get_sprite_comp_immut(player).tex_name, "assets/ferris.png");
}

#[test]
fn player_scenario_one_draw_pass() {
    let mut game = Game::new();
    let id = game.spawn_player();
    let calls = game.draw_tick();
    assert_eq!(calls.len(), 4);
    assert!(matches!(calls[0], RenderCall::CreateQuad { quad: 0 }));
    assert!(matches!(&calls[1], RenderCall::LoadTexture { name, texture: 1 } if name == "assets/ferris.png"));
    assert!(matches!(calls[2], RenderCall::AttachSprite { quad: 0, texture: 1, sprite_index: 0 }));
    assert!(matches!(calls[3], RenderCall::SetQuadPos { quad: 0, x: 0, y: 0 }));
    assert!(!game.entity_mgr.get_sprite_comp_immut(id).should_update);
}

#[test]
fn key_events_drive_buttons() {
    let mut game = Game::new();
    game.input_mgr.map_key_to_button(7, ButtonCode::RIGHT);
    game.key_down(7);
    assert_eq!(game.input_mgr.button_state(ButtonCode::RIGHT), ButtonState::PRESSED);
    game.key_down(8);
    assert_eq!(game.input_mgr.button_state(ButtonCode::LEFT), ButtonState::UP);
    game.key_up(7);
    assert_eq!(game.input_mgr.button_state(ButtonCode::RIGHT), ButtonState::RELEASED);
}

#[test]
fn simulation_tick_moves_logs_and_settles_edges() {
    let mut game = Game::new();
    game.input_mgr.map_key_to_button(7, ButtonCode::RIGHT);
    let id = game.spawn_player();
    game.entity_mgr.add_log_comp(id);
    game.entity_mgr.get_log_comp(id).message = String::from("spawned");
    game.entity_mgr.get_log_comp(id).has_info = true;
    game.key_down(7);
    let msgs = game.simulation_tick();
    assert_eq!(msgs, vec![String::from("spawned")]);
    let p = game.entity_mgr.get_pos_comp_immut(id);
    assert_eq!((p.spd_x, p.prec_x, p.spd_y, p.prec_y), (98, 98, 700, 700));
    assert_eq!(game.input_mgr.button_state(ButtonCode::RIGHT), ButtonState::DOWN);
    assert!(game.simulation_tick().is_empty());
}

#[test]
fn room_checks() {
    let game = Game::new();
    assert!(game.room_for(10));
    assert!(game.draw_room());
}
