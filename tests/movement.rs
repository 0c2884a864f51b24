use super_ferris::components::{Component, PositionComponent};
use super_ferris::input_manager::{ButtonCode, InputManager};
use super_ferris::systems::player_system::{self, move_by, PadInput};

fn at(prec_x: i32, prec_y: i32, spd_x: i32, spd_y: i32) -> PositionComponent {
    let mut p = PositionComponent::fresh(1);
    p.prec_x = prec_x;
    p.prec_y = prec_y;
    p.spd_x = spd_x;
    p.spd_y = spd_y;
    p
}

const IDLE: PadInput = PadInput { left: false, right: false, jump_held: false, jump_pressed: false };
const RIGHT: PadInput = PadInput { left: false, right: true, jump_held: false, jump_pressed: false };

#[test]
fn falling_from_rest_accelerates_by_fall_gravity() {
    let mut p = at(0, 0, 0, 0);
    move_by(&mut p, IDLE);
    assert_eq!((p.spd_y, p.prec_y, p.y), (700, 700, 0));
    move_by(&mut p, IDLE);
    assert_eq!((p.spd_y, p.prec_y, p.y), (1400, 2100, 2));
}

#[test]
fn walking_right_on_the_floor() {
    let mut p = at(0, 200_000, 0, 0);
    for _ in 0..11 {
        move_by(&mut p, RIGHT);
    }
    assert_eq!(p.spd_x, 1078);
    assert_eq!(p.prec_x, 6468);
    assert_eq!(p.x, 6);
    assert_eq!((p.prec_y, p.y, p.spd_y), (200_000, 200, 0));
}

#[test]
fn running_speed_is_capped() {
    let mut p = at(0, 200_000, 2842, 0);
    move_by(&mut p, RIGHT);
    assert_eq!(p.spd_x, 2900);
    let mut q = at(100_000, 200_000, -2850, 0);
    move_by(&mut q, PadInput { left: true, ..IDLE });
    assert_eq!(q.spd_x, -2900);
}

#[test]
fn release_decelerates_on_ground_only() {
    let mut p = at(10_000, 200_000, 500, 0);
    move_by(&mut p, IDLE);
    assert_eq!(p.spd_x, 370);
    let mut q = at(10_000, 100_000, 500, 1000);
    move_by(&mut q, IDLE);
    assert_eq!(q.spd_x, 500);
    let mut r = at(10_000, 200_000, -120, 0);
    move_by(&mut r, IDLE);
    assert_eq!(r.spd_x, 0);
}

#[test]
fn left_wins_over_right() {
    let mut p = at(10_000, 200_000, 0, 0);
    move_by(&mut p, PadInput { left: true, right: true, ..IDLE });
    assert_eq!(p.spd_x, -98);
}

#[test]
fn walls_stop_horizontal_motion() {
    let mut p = at(50, 200_000, -98, 0);
    move_by(&mut p, PadInput { left: true, ..IDLE });
    assert_eq!((p.prec_x, p.spd_x, p.x), (0, 0, 0));
    let mut q = at(247_950, 200_000, 2900, 0);
    move_by(&mut q, RIGHT);
    assert_eq!((q.prec_x, q.spd_x, q.x), (248_000, 0, 248));
}

#[test]
fn crossing_the_floor_settles_at_200() {
    let mut p = at(0, 199_000, 0, 2000);
    move_by(&mut p, IDLE);
    assert_eq!((p.prec_y, p.y, p.spd_y), (200_000, 200, 0));
    for _ in 0..5 {
        move_by(&mut p, IDLE);
        assert_eq!((p.prec_y, p.y, p.spd_y), (200_000, 200, 0));
    }
}

#[test]
fn terminal_fall_speed() {
    let mut p = at(0, 0, 0, 4500);
    move_by(&mut p, IDLE);
    assert_eq!(p.spd_y, 4800);
}

#[test]
fn negative_heights_round_down() {
    let mut p = at(0, -2200, 0, 0);
    move_by(&mut p, IDLE);
    assert_eq!((p.prec_y, p.y), (-1500, -2));
    let mut q = at(0, -1700, 0, 0);
    move_by(&mut q, IDLE);
    assert_eq!((q.prec_y, q.y), (-1000, -1));
}

#[test]
fn holding_jump_gives_one_impulse() {
    let mut input = InputManager::new();
    let mut p = at(0, 200_000, 0, 0);
    let mut impulses = 0;
    for tick in 0..10 {
        input.set_button_pressed(ButtonCode::A);
        player_system::update_entity(&mut p, &input);
        if p.spd_y == -4000 {
            impulses += 1;
            assert_eq!(tick, 0);
        }
        input.update();
    }
    assert_eq!(impulses, 1);
}

#[test]
fn jump_rises_at_jump_speed() {
    let mut input = InputManager::new();
    input.set_button_pressed(ButtonCode::A);
    let mut p = at(0, 200_000, 0, 0);
    player_system::update_entity(&mut p, &input);
    assert_eq!((p.spd_y, p.prec_y, p.y), (-4000, 196_000, 196));
    input.update();
    player_system::update_entity(&mut p, &input);
    assert_eq!((p.spd_y, p.prec_y), (-3800, 192_200));
}

#[test]
fn same_inputs_give_same_trajectory() {
    let pads = [RIGHT, RIGHT, IDLE, PadInput { jump_pressed: true, jump_held: true, ..IDLE }, IDLE, RIGHT];
    let run = || {
        let mut p = at(1234, 199_500, 0, 0);
        let mut out = Vec::new();
        for pad in pads.iter() {
            move_by(&mut p, *pad);
            out.push(p);
        }
        out
    };
    assert_eq!(run(), run());
}
