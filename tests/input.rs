use super_ferris::input_manager::{ButtonCode, ButtonState, InputManager};

#[test]
fn buttons_start_up() {
    let input = InputManager::new();
    for b in [ButtonCode::LEFT, ButtonCode::RIGHT, ButtonCode::UP, ButtonCode::DOWN, ButtonCode::A, ButtonCode::B] {
        assert_eq!(input.button_state(b), ButtonState::UP);
        assert!(!input.is_button_down(b));
        assert!(!input.is_button_pressed(b));
    }
}

#[test]
fn press_cycle() {
    let mut input = InputManager::new();
    input.set_button_pressed(ButtonCode::B);
    assert_eq!(input.button_state(ButtonCode::B), ButtonState::PRESSED);
    assert!(input.is_button_down(ButtonCode::B));
    assert!(input.is_button_pressed(ButtonCode::B));
    input.update();
    assert_eq!(input.button_state(ButtonCode::B), ButtonState::DOWN);
    assert!(input.is_button_down(ButtonCode::B));
    assert!(!input.is_button_pressed(ButtonCode::B));
    input.set_button_pressed(ButtonCode::B);
    assert_eq!(input.button_state(ButtonCode::B), ButtonState::DOWN);
    input.set_button_released(ButtonCode::B);
    assert_eq!(input.button_state(ButtonCode::B), ButtonState::RELEASED);
    assert!(!input.is_button_down(ButtonCode::B));
    input.update();
    assert_eq!(input.button_state(ButtonCode::B), ButtonState::UP);
    input.update();
    assert_eq!(input.button_state(ButtonCode::B), ButtonState::UP);
    assert_eq!(input.button_state(ButtonCode::A), ButtonState::UP);
}

#[test]
fn keys_map_to_buttons() {
    let mut input = InputManager::new();
    input.map_key_to_button(30, ButtonCode::LEFT);
    input.map_key_to_button(31, ButtonCode::LEFT);
    input.map_key_to_button(40, ButtonCode::A);
    assert_eq!(input.key_to_button(30), Some(ButtonCode::LEFT));
    assert_eq!(input.key_to_button(31), Some(ButtonCode::LEFT));
    assert_eq!(input.key_to_button(40), Some(ButtonCode::A));
    assert_eq!(input.key_to_button(41), None);
    input.map_key_to_button(40, ButtonCode::B);
    assert_eq!(input.key_to_button(40), Some(ButtonCode::B));
}
