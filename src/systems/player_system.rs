use vstd::prelude::*;

use crate::components::position_component::SUBPIXELS;
use crate::components::PositionComponent;
use crate::entity_manager::{Entity, EntityManager};
use crate::input_manager::{after_frame, after_press, held, ButtonCode, ButtonState, InputManager};

verus! {

// Speeds and accelerations, in thousandths of a pixel per frame at 60 Hz.
pub const MIN_WALK_VEL: i32 = 130;
pub const MAX_RUN_VEL: i32 = 2900;
pub const WALK_ACC: i32 = 98;
/// Reserved for a run mechanic that the update does not apply yet.
pub const RUN_ACC: i32 = 144;
pub const REL_DEC: i32 = 130;
/// Reserved for a skid mechanic that the update does not apply yet.
pub const SKID_DEC: i32 = 200;
/// Reserved for a skid mechanic that the update does not apply yet.
pub const SKID_SPD: i32 = 900;
pub const JUMP_ACC: i32 = 4000;
pub const HOLD_GRAV: i32 = 200;
pub const FALL_GRAV: i32 = 700;
pub const MAX_V_VEL: i32 = 4800;
/// Vertical speed above which an entity counts as airborne.
pub const AIR_EPSILON: i32 = 10;
/// Lowest precise y an entity may reach.
pub const FLOOR_Y: i32 = (196 + 4) * SUBPIXELS;
/// Rightmost precise x an entity may reach.
pub const RIGHT_X: i32 = (256 - 8) * SUBPIXELS;

/// What the movement update reads of the input for one frame.
#[derive(Clone, Copy, Debug, PartialEq, Eq, Structural)]
pub struct PadInput {
    pub left: bool,
    pub right: bool,
    pub jump_held: bool,
    pub jump_pressed: bool,
}

/// The pad as the input manager shows it this frame.
pub open spec fn pad_of(input: &InputManager) -> PadInput {
    PadInput {
        left: held(input.state_of(ButtonCode::LEFT)),
        right: held(input.state_of(ButtonCode::RIGHT)),
        jump_held: held(input.state_of(ButtonCode::A)),
        jump_pressed: input.state_of(ButtonCode::A) == ButtonState::PRESSED,
    }
}

pub open spec fn abs(v: int) -> int {
    if v < 0 {
        -v
    } else {
        v
    }
}

pub open spec fn sign(v: int) -> int {
    if v < 0 {
        -1
    } else if v > 0 {
        1
    } else {
        0
    }
}

/// Whole pixels of a precise coordinate: the floor of its value in
/// pixels.
pub open spec fn whole_pixels(v: int) -> int {
    v / (SUBPIXELS as int)
}

pub open spec fn airborne(p: PositionComponent) -> bool {
    abs(p.spd_y as int) > AIR_EPSILON
}

/// Horizontal speed after walking input or release deceleration.
pub open spec fn walked_speed(spd_x: int, in_air: bool, pad: PadInput) -> int {
    if pad.left {
        spd_x - WALK_ACC
    } else if pad.right {
        spd_x + WALK_ACC
    } else if abs(spd_x) > MIN_WALK_VEL {
        if in_air {
            spd_x
        } else {
            spd_x - sign(spd_x) * REL_DEC
        }
    } else {
        0
    }
}

/// Horizontal speed limited to the running speed.
pub open spec fn capped_run_speed(v: int) -> int {
    if abs(v) > MAX_RUN_VEL {
        sign(v) * MAX_RUN_VEL
    } else {
        v
    }
}

/// Vertical speed after gravity, a jump on a press edge while grounded,
/// and the terminal fall speed.
pub open spec fn fall_speed(spd_y: int, in_air: bool, pad: PadInput) -> int {
    let g = spd_y + if pad.jump_held {
        HOLD_GRAV as int
    } else {
        FALL_GRAV as int
    };
    let j = if pad.jump_pressed && !in_air {
        -JUMP_ACC
    } else {
        g
    };
    if j > MAX_V_VEL {
        MAX_V_VEL as int
    } else {
        j
    }
}

/// The precise y reached before the floor is applied; it stays within `i32`.
pub open spec fn moved_y(prec_y: int, spd_y: int) -> int {
    if prec_y + spd_y < i32::MIN {
        i32::MIN as int
    } else {
        prec_y + spd_y
    }
}

/// The jump branch fires this frame.
pub open spec fn jumps(p: PositionComponent, pad: PadInput) -> bool {
    pad.jump_pressed && !airborne(p)
}

/// One frame of movement.
pub open spec fn step(p: PositionComponent, pad: PadInput) -> PositionComponent {
    let in_air = airborne(p);
    let sx = capped_run_speed(walked_speed(p.spd_x as int, in_air, pad));
    let sy = fall_speed(p.spd_y as int, in_air, pad);
    let nx = p.prec_x + sx;
    let ny = moved_y(p.prec_y as int, sy);
    let (fy, fsy) = if ny > FLOOR_Y {
        (FLOOR_Y as int, 0int)
    } else {
        (ny, sy)
    };
    let (fx, fsx) = if nx < 0 {
        (0int, 0int)
    } else if nx > RIGHT_X {
        (RIGHT_X as int, 0int)
    } else {
        (nx, sx)
    };
    PositionComponent {
        prec_x: fx as i32,
        prec_y: fy as i32,
        spd_x: fsx as i32,
        spd_y: fsy as i32,
        x: whole_pixels(fx) as i32,
        y: whole_pixels(fy) as i32,
        ..p
    }
}

/// Whole pixels of a precise coordinate, rounded down.
fn to_pixels(v: i32) -> (r: i32)
    ensures
        r == whole_pixels(v as int),
{
    if v >= 0 {
        v / SUBPIXELS
    } else {
        let m: i64 = -(v as i64);
        let q: i64 = (m + (SUBPIXELS as i64 - 1)) / SUBPIXELS as i64;
        proof {
            assert(-q == (v as int) / 1000) by (nonlinear_arith)
                requires
                    v < 0,
                    m == -v,
                    q == (m + 999) / 1000,
            ;
        }
        -(q as i32)
    }
}

/// Advances one player entity's position by one frame.
pub fn update_entity(pos_comp: &mut PositionComponent, input_mgr: &InputManager)
    requires
        input_mgr.wf(),
    ensures
        *final(pos_comp) == step(*old(pos_comp), pad_of(input_mgr)),
{
    let pad = PadInput {
        left: input_mgr.is_button_down(ButtonCode::LEFT),
        right: input_mgr.is_button_down(ButtonCode::RIGHT),
        jump_held: input_mgr.is_button_down(ButtonCode::A),
        jump_pressed: input_mgr.is_button_pressed(ButtonCode::A),
    };
    move_by(pos_comp, pad);
}

/// Advances a position by one frame of the given pad input.
pub fn move_by(pos_comp: &mut PositionComponent, pad: PadInput)
    ensures
        *final(pos_comp) == step(*old(pos_comp), pad),
{
    let spd_y0: i64 = pos_comp.spd_y as i64;
    let in_air = spd_y0 > AIR_EPSILON as i64 || spd_y0 < -(AIR_EPSILON as i64);

    // Horizontal movement
    let mut sx: i64 = pos_comp.spd_x as i64;
    if pad.left {
        sx = sx - WALK_ACC as i64;
    } else if pad.right {
        sx = sx + WALK_ACC as i64;
    } else if sx > MIN_WALK_VEL as i64 || sx < -(MIN_WALK_VEL as i64) {
        if !in_air {
            if sx > 0 {
                sx = sx - REL_DEC as i64;
            } else {
                sx = sx + REL_DEC as i64;
            }
        }
    } else {
        sx = 0;
    }
    if sx > MAX_RUN_VEL as i64 {
        sx = MAX_RUN_VEL as i64;
    } else if sx < -(MAX_RUN_VEL as i64) {
        sx = -(MAX_RUN_VEL as i64);
    }

    // Gravity, jump, terminal fall speed
    let mut sy: i64 = if pad.jump_held {
        spd_y0 + HOLD_GRAV as i64
    } else {
        spd_y0 + FALL_GRAV as i64
    };
    if pad.jump_pressed && !in_air {
        sy = -(JUMP_ACC as i64);
    }
    if sy > MAX_V_VEL as i64 {
        sy = MAX_V_VEL as i64;
    }

    // Integrate
    let mut nx: i64 = pos_comp.prec_x as i64 + sx;
    let mut ny: i64 = pos_comp.prec_y as i64 + sy;
    if ny < i32::MIN as i64 {
        ny = i32::MIN as i64;
    }

    // Level bounds
    if ny > FLOOR_Y as i64 {
        ny = FLOOR_Y as i64;
        sy = 0;
    }
    if nx < 0 {
        nx = 0;
        sx = 0;
    }
    if nx > RIGHT_X as i64 {
        nx = RIGHT_X as i64;
        sx = 0;
    }

    pos_comp.spd_x = sx as i32;
    pos_comp.spd_y = sy as i32;
    pos_comp.prec_x = nx as i32;
    pos_comp.prec_y = ny as i32;
    pos_comp.x = to_pixels(nx as i32);
    pos_comp.y = to_pixels(ny as i32);
}

/// Positions after the movement update has run, in table order, for the
/// first `n` rows of `ents`: each live player entity's bound Position
/// record advances one frame.
pub open spec fn player_pass(
    ents: Seq<Entity>,
    poss: Seq<PositionComponent>,
    pad: PadInput,
    n: nat,
) -> Seq<PositionComponent>
    decreases n,
{
    if n == 0 {
        poss
    } else {
        let prev = player_pass(ents, poss, pad, (n - 1) as nat);
        let e = ents[n - 1];
        if e.exists && e.use_player {
            prev.update(e.pos_ind as int, step(prev[e.pos_ind as int], pad))
        } else {
            prev
        }
    }
}

/// Runs the movement update for every live entity that uses the player
/// system, in table order.
pub fn update(entity_mgr: &mut EntityManager, input_mgr: &InputManager)
    requires
        old(entity_mgr).wf(),
        input_mgr.wf(),
    ensures
        final(entity_mgr).wf(),
        final(entity_mgr).positions() == player_pass(
            old(entity_mgr).entities_view(),
            old(entity_mgr).positions(),
            pad_of(input_mgr),
            old(entity_mgr).entities_view().len(),
        ),
        final(entity_mgr).entities_view() == old(entity_mgr).entities_view(),
        final(entity_mgr).logs() == old(entity_mgr).logs(),
        final(entity_mgr).sprites() == old(entity_mgr).sprites(),
{
    let n = entity_mgr.entity_count();
    let ghost ents = entity_mgr.entities_view();
    let ghost poss = entity_mgr.positions();
    let mut i: usize = 0;
    while i < n
        invariant
            i <= n,
            n == ents.len(),
            input_mgr.wf(),
            entity_mgr.wf(),
            entity_mgr.entities_view() == ents,
            entity_mgr.positions() == player_pass(ents, poss, pad_of(input_mgr), i as nat),
            entity_mgr.logs() == old(entity_mgr).logs(),
            entity_mgr.sprites() == old(entity_mgr).sprites(),
        decreases n - i,
    {
        let e = entity_mgr.entity(i as u32);
        if e.exists && e.use_player {
            update_entity(entity_mgr.get_pos_comp(i as u32), input_mgr);
        }
        i = i + 1;
    }
}

/// Positions reached from `p` by the movement update, one per frame of
/// `pads`, starting with `p` itself.
pub open spec fn trajectory(p: PositionComponent, pads: Seq<PadInput>) -> Seq<PositionComponent>
    decreases pads.len(),
{
    if pads.len() == 0 {
        seq![p]
    } else {
        let t = trajectory(p, pads.drop_last());
        t.push(step(t.last(), pads.last()))
    }
}

/// `t` records a run of the movement update from `p` over the frames of
/// `pads`: it starts at `p` and each next position is one frame of
/// movement from the one before.
pub open spec fn is_run(p: PositionComponent, pads: Seq<PadInput>, t: Seq<PositionComponent>) -> bool {
    &&& t.len() == pads.len() + 1
    &&& t[0] == p
    &&& forall|k: int| 0 <= k < pads.len() ==> #[trigger] t[k + 1] == step(t[k], pads[k])
}

/// Movement is deterministic: any recorded run from a start over a
/// sequence of input frames is the trajectory of that start and those
/// frames, so two runs with the same start and the same inputs agree
/// position for position. Nothing else (time, chance, earlier runs)
/// enters.
pub proof fn lemma_runs_agree(p: PositionComponent, pads: Seq<PadInput>, t: Seq<PositionComponent>, u: Seq<PositionComponent>)
    requires
        is_run(p, pads, t),
        is_run(p, pads, u),
    ensures
        t == trajectory(p, pads),
        t == u,
{
    lemma_run_is_trajectory(p, pads, t);
    lemma_run_is_trajectory(p, pads, u);
}

proof fn lemma_run_is_trajectory(p: PositionComponent, pads: Seq<PadInput>, t: Seq<PositionComponent>)
    requires
        is_run(p, pads, t),
    ensures
        t == trajectory(p, pads),
    decreases pads.len(),
{
    if pads.len() == 0 {
        assert(t =~= seq![p]);
    } else {
        let n = pads.len() - 1;
        let t0 = t.subrange(0, n + 1);
        assert forall|k: int| 0 <= k < pads.drop_last().len() implies #[trigger] t0[k + 1] == step(
            t0[k],
            pads.drop_last()[k],
        ) by {
            assert(t[k + 1] == step(t[k], pads[k]));
        }
        lemma_run_is_trajectory(p, pads.drop_last(), t0);
        assert(t[n + 1] == step(t[n], pads[n]));
        assert(t =~= t0.push(step(t0.last(), pads.last())));
    }
}

/// The floor holds: after a frame the precise y is never below the floor
/// (y grows downward); a frame that would carry it past the floor leaves
/// it exactly on the floor, at whole pixel y 200, with no vertical speed;
/// and an entity resting on the floor stays there until a jump.
pub proof fn lemma_floor_clamp(p: PositionComponent, pad: PadInput)
    ensures
        step(p, pad).prec_y <= FLOOR_Y,
        p.prec_y + fall_speed(p.spd_y as int, airborne(p), pad) > FLOOR_Y ==> {
            &&& step(p, pad).prec_y == FLOOR_Y
            &&& step(p, pad).y == 200
            &&& step(p, pad).spd_y == 0
        },
        p.prec_y == FLOOR_Y && p.spd_y == 0 && !pad.jump_pressed ==> {
            &&& step(p, pad).prec_y == FLOOR_Y
            &&& step(p, pad).y == 200
            &&& step(p, pad).spd_y == 0
        },
{
}

/// State of the jump button during frame `k` of a hold that starts from
/// `start`: before each frame the key reports down again, and after each
/// frame the edges settle.
pub open spec fn held_jump_state(start: ButtonState, k: nat) -> ButtonState
    decreases k,
{
    if k == 0 {
        after_press(start)
    } else {
        after_press(after_frame(held_jump_state(start, (k - 1) as nat)))
    }
}

/// The pad during frame `k` of a jump-button hold, with no direction held.
pub open spec fn hold_pad(start: ButtonState, k: nat) -> PadInput {
    let s = held_jump_state(start, k);
    PadInput { left: false, right: false, jump_held: held(s), jump_pressed: s == ButtonState::PRESSED }
}

/// Position after `k` frames of a jump-button hold.
pub open spec fn hold_run(p: PositionComponent, start: ButtonState, k: nat) -> PositionComponent
    decreases k,
{
    if k == 0 {
        p
    } else {
        step(hold_run(p, start, (k - 1) as nat), hold_pad(start, (k - 1) as nat))
    }
}

proof fn lemma_hold_settles(start: ButtonState, k: nat)
    requires
        start != ButtonState::DOWN,
    ensures
        held_jump_state(start, k) == if k == 0 {
            ButtonState::PRESSED
        } else {
            ButtonState::DOWN
        },
    decreases k,
{
    if k > 0 {
        lemma_hold_settles(start, (k - 1) as nat);
    }
}

/// Jumps fire on the press edge only: holding the jump button from rest
/// on the ground for `n` frames jumps on the first frame and on no other,
/// and that frame leaves the entity rising at exactly the jump speed.
pub proof fn lemma_held_jump_fires_once(p: PositionComponent, start: ButtonState, n: nat)
    requires
        start != ButtonState::DOWN,
        !airborne(p),
        p.prec_y <= FLOOR_Y,
    ensures
        forall|k: nat| k < n ==> (jumps(#[trigger] hold_run(p, start, k), hold_pad(start, k)) <==> k == 0),
        hold_run(p, start, 1).spd_y == -JUMP_ACC,
{
    assert forall|k: nat| k < n implies (jumps(#[trigger] hold_run(p, start, k), hold_pad(start, k)) <==> k == 0) by {
        lemma_hold_settles(start, k);
    }
    lemma_hold_settles(start, 0);
    assert(hold_run(p, start, 0) == p);
}

} // verus!
