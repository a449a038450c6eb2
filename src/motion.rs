use vstd::prelude::*;

use crate::animation::AnimState;
use crate::curves::{
    CurveSet, Curves, AIR_MOVE_FACTOR, BRAKE_FACTOR, CROUCHED_JUMP_UP_FACTOR, DRIFT_FACTOR,
    JUMP_DOWN_FACTOR, JUMP_UP_FACTOR, MAX_CURVE_VALUE, MOVE_FACTOR,
};
use crate::geometry::{clamp_step, round_spec, round_to_pixel, MAX_STEP_US, POSITION_LIMIT, SUBPIXELS};
use crate::probe::{
    can_jump_up, can_walk_down, can_walk_left, can_walk_right, down_clear, left_clear,
    right_clear, up_clear, DUCK_DISTANCE,
};
use crate::state::{Facing, JumpState, MoveState};
use crate::tilemap::{Layer, TileGrid, Tilemap};

verus! {

/// Time after a reset, in microseconds, before input is taken.
pub const WARMUP_US: u64 = 1_000_000;

/// Logic-layer id of the goal.
pub const GOAL_ID: u32 = 1;

/// Logic-layer id of the spawn point.
pub const SPAWN_ID: u32 = 2;

/// Logic-layer id of a hazard.
pub const HAZARD_ID: u32 = 3;

/// Bound, in sub-pixel units, on the displacement of one phase of a tick.
pub const STEP_BOUND: i64 = 1_000_000_000;

/// Which horizontal move was last refused by a wall.
#[derive(Clone, Copy, Debug, PartialEq, Eq, Structural)]
pub enum CollisionMark {
    Clear,
    Left,
    Right,
}

/// The simulated state of the character.
#[derive(Clone, Copy, Debug, PartialEq, Eq, Structural)]
pub struct Body {
    /// Top-left corner of the 8 by 16 pixel box, in sub-pixel units.
    pub x: i64,
    pub y: i64,
    /// Last horizontal intent: -1, 0 or 1.
    pub direction: i64,
    pub state: MoveState,
    pub jump: JumpState,
    pub facing: Facing,
    /// Crouch offset in pixels: 0 or `DUCK_DISTANCE`.
    pub duck: i64,
    pub move_step: usize,
    pub brake_step: usize,
    pub air_step: usize,
    pub jump_up_step: usize,
    pub jump_down_step: usize,
    /// Microseconds left before input is taken.
    pub warmup_us: u64,
    pub mark: CollisionMark,
}

/// What the player does during one frame.
#[derive(Clone, Copy, Debug, PartialEq, Eq, Structural)]
pub struct Input {
    pub left: bool,
    pub right: bool,
    pub jump: bool,
    pub down: bool,
    /// Some key went down during the frame.
    pub key_pressed: bool,
    /// Length of the frame in microseconds.
    pub frame_us: u64,
}

/// The counters index their curves and the other fields hold legal values.
pub open spec fn body_ok(b: Body, c: CurveSet) -> bool {
    &&& -1 <= b.direction <= 1
    &&& b.duck == 0 || b.duck == DUCK_DISTANCE
    &&& b.move_step < c.move_speed.len()
    &&& b.brake_step <= c.brake.len()
    &&& b.air_step <= c.jump_up.len()
    &&& b.jump_up_step < c.jump_up.len()
    &&& b.jump_down_step < c.jump_down.len()
    &&& b.warmup_us <= WARMUP_US
}

/// Both coordinates lie within `bound` sub-pixel units of the origin.
pub open spec fn within(b: Body, bound: int) -> bool {
    -bound <= b.x <= bound && -bound <= b.y <= bound
}

/// `r` lies within `STEP_BOUND` of `b` on both axes.
pub open spec fn near(b: Body, r: Body) -> bool {
    -STEP_BOUND <= r.x - b.x <= STEP_BOUND && -STEP_BOUND <= r.y - b.y <= STEP_BOUND
}

/// The simulated step for a frame of `frame_us` microseconds.
pub open spec fn step_of(frame_us: u64) -> int {
    if frame_us < MAX_STEP_US { frame_us as int } else { MAX_STEP_US as int }
}

/// Horizontal distance of a move at the current speed step.
pub open spec fn move_distance(b: Body, c: CurveSet, dt: int) -> int {
    let factor = if b.state != MoveState::Air { MOVE_FACTOR } else { AIR_MOVE_FACTOR };
    factor * c.move_speed[b.move_step as int] * dt
}

/// The move-speed step after a successful move: one further, up to the last entry.
pub open spec fn next_move_step(b: Body, c: CurveSet) -> usize {
    if b.move_step < c.move_speed.len() - 1 { (b.move_step + 1) as usize } else { b.move_step }
}

/// Braking: slides along `direction` at the current brake step until the
/// curve is spent, then stands still.
#[verifier::opaque]
pub open spec fn brake(b: Body, dt: int, map: TileGrid, c: CurveSet) -> Body {
    let b2 = if b.state == MoveState::Run {
        Body { brake_step: 0, state: MoveState::Slide, ..b }
    } else {
        b
    };
    if b2.brake_step < c.brake.len() - 1 {
        let dist = BRAKE_FACTOR * c.brake[b2.brake_step as int] * dt;
        let x = if b2.direction > 0 {
            if right_clear(map, b2.x + dist, b2.y as int, b2.duck as int) { b2.x + dist } else { b2.x as int }
        } else if b2.direction < 0 {
            if left_clear(map, b2.x - dist, b2.y as int, b2.duck as int) { b2.x - dist } else { b2.x as int }
        } else {
            b2.x as int
        };
        Body { x: x as i64, brake_step: (b2.brake_step + 1) as usize, ..b2 }
    } else {
        Body {
            state: if b2.state != MoveState::Idle { MoveState::Stand } else { MoveState::Idle },
            direction: 0,
            ..b2
        }
    }
}

/// Horizontal intent: a held direction key moves the character when the
/// probe allows it and otherwise turns it back; with no key the speed step
/// drops to 0 and a grounded character brakes.
#[verifier::opaque]
pub open spec fn horizontal(b: Body, input: Input, dt: int, map: TileGrid, c: CurveSet) -> Body {
    if input.left {
        let dist = move_distance(b, c, dt);
        if left_clear(map, b.x - dist, b.y as int, b.duck as int) {
            Body {
                facing: Facing::Left,
                state: if b.state != MoveState::Air { MoveState::Run } else { b.state },
                direction: -1i64,
                x: (b.x - dist) as i64,
                move_step: next_move_step(b, c),
                ..b
            }
        } else {
            Body {
                direction: 1,
                brake_step: (c.brake.len() - 3) as usize,
                mark: CollisionMark::Left,
                ..b
            }
        }
    } else if input.right {
        let dist = move_distance(b, c, dt);
        if right_clear(map, b.x + dist, b.y as int, b.duck as int) {
            Body {
                facing: Facing::Right,
                state: if b.state != MoveState::Air { MoveState::Run } else { b.state },
                direction: 1,
                x: (b.x + dist) as i64,
                move_step: next_move_step(b, c),
                ..b
            }
        } else {
            Body {
                direction: -1i64,
                brake_step: (c.brake.len() - 3) as usize,
                mark: CollisionMark::Right,
                ..b
            }
        }
    } else {
        let b1 = Body { move_step: 0, ..b };
        if b.jump == JumpState::Not {
            brake(b1, dt, map, c)
        } else {
            b1
        }
    }
}

/// A run animation that has played its last cycle sets the character
/// standing, facing the way it ran.
pub open spec fn run_stop(b: Body, anim: AnimState, run_done: bool) -> Body {
    if anim == AnimState::RunLeft && run_done {
        Body { state: MoveState::Stand, facing: Facing::Left, ..b }
    } else if anim == AnimState::RunRight && run_done {
        Body { state: MoveState::Stand, facing: Facing::Right, ..b }
    } else {
        b
    }
}

/// Upward distance of the next ascent step.
pub open spec fn rise_distance(b: Body, c: CurveSet, dt: int) -> int {
    let factor = if b.duck > 0 { CROUCHED_JUMP_UP_FACTOR } else { JUMP_UP_FACTOR };
    factor * c.jump_up[b.jump_up_step + 1] * dt
}

/// A jump begins on this tick.
pub open spec fn jump_starts(b: Body, input: Input, c: CurveSet) -> bool {
    input.jump && b.jump == JumpState::Not && b.jump_up_step < c.jump_up.len() - 1
}

/// Ascent: while the jump key is held the character rises along the ascent
/// curve unless a ceiling is in the way; a spent curve or a released key
/// ends the rise.
#[verifier::opaque]
pub open spec fn ascent(b: Body, input: Input, dt: int, map: TileGrid, c: CurveSet) -> Body {
    let b1 = if input.jump && (b.jump == JumpState::BuildUp || b.jump == JumpState::Not) {
        if b.jump_up_step < c.jump_up.len() - 1 {
            let started = if b.jump == JumpState::Not {
                Body { jump: JumpState::BuildUp, state: MoveState::Air, ..b }
            } else {
                b
            };
            let dy = rise_distance(b, c, dt);
            let y = if up_clear(map, b.x as int, b.y - dy, b.duck as int) { b.y - dy } else { b.y as int };
            Body { jump_up_step: (b.jump_up_step + 1) as usize, y: y as i64, ..started }
        } else {
            Body { state: MoveState::Air, jump: JumpState::Up, ..b }
        }
    } else {
        b
    };
    if !input.jump && b1.jump == JumpState::BuildUp {
        Body { state: MoveState::Air, jump: JumpState::Up, ..b1 }
    } else {
        b1
    }
}

/// Coast: the top of a jump lasts as many ticks as the ascent curve has
/// entries, then the fall begins.
#[verifier::opaque]
pub open spec fn coast(b: Body, c: CurveSet) -> Body {
    if b.jump == JumpState::Up {
        if b.air_step > c.jump_up.len() - 1 {
            Body { air_step: 0, jump: JumpState::Down, ..b }
        } else {
            Body { air_step: (b.air_step + 1) as usize, ..b }
        }
    } else {
        b
    }
}

/// Downward distance of the current fall step.
pub open spec fn fall_distance(b: Body, c: CurveSet, dt: int) -> int {
    JUMP_DOWN_FACTOR * c.jump_down[b.jump_down_step as int] * dt
}

/// Horizontal drift while falling.
pub open spec fn drift(b: Body, dt: int) -> int {
    DRIFT_FACTOR * b.direction * dt
}

/// Fall: a falling or grounded character drops along the descent curve
/// when the feet probe allows it, and otherwise lands.
#[verifier::opaque]
pub open spec fn fall(b: Body, dt: int, map: TileGrid, c: CurveSet) -> Body {
    if b.jump == JumpState::Down || b.jump == JumpState::Not {
        let dy = fall_distance(b, c, dt);
        let dx = drift(b, dt);
        if down_clear(map, b.x + dx, b.y + dy) {
            Body {
                jump_down_step: if b.jump_down_step < c.jump_down.len() - 1 {
                    (b.jump_down_step + 1) as usize
                } else {
                    b.jump_down_step
                },
                x: (b.x + dx) as i64,
                y: (b.y + dy) as i64,
                jump: JumpState::Down,
                state: MoveState::Air,
                ..b
            }
        } else {
            Body {
                jump_down_step: 0,
                jump_up_step: 0,
                state: if b.facing == Facing::Camera { MoveState::Stand } else { MoveState::Slide },
                jump: JumpState::Not,
                ..b
            }
        }
    } else {
        b
    }
}

/// Crouch: the down key crouches; without it the character stands up only
/// where nothing is overhead.
#[verifier::opaque]
pub open spec fn crouch(b: Body, input: Input, map: TileGrid) -> Body {
    if input.down {
        Body { duck: DUCK_DISTANCE, ..b }
    } else if up_clear(map, b.x as int, b.y as int, 0) {
        Body { duck: 0, ..b }
    } else {
        b
    }
}

/// Logic tile at the whole-pixel point `(px, py)`.
pub open spec fn logic_at(map: TileGrid, px: int, py: int) -> Option<u32> {
    map.tile_at(Layer::Logic, px * SUBPIXELS, py * SUBPIXELS)
}

/// Logic tile under the head ray `(4, 4 + duck)`.
pub open spec fn head_tile(b: Body, map: TileGrid) -> Option<u32> {
    logic_at(map, round_spec(b.x as int) + 4, round_spec(b.y as int) + 4 + b.duck)
}

/// Logic tile under the feet ray `(4, 12)`.
pub open spec fn feet_tile(b: Body, map: TileGrid) -> Option<u32> {
    logic_at(map, round_spec(b.x as int) + 4, round_spec(b.y as int) + 12)
}

/// A hazard touches the head or the feet.
pub open spec fn hazard_hit(b: Body, map: TileGrid) -> bool {
    head_tile(b, map) == Some(HAZARD_ID) || feet_tile(b, map) == Some(HAZARD_ID)
}

/// Hazards and goal: a hazard at the head or feet kills, the goal under the
/// feet wins.
#[verifier::opaque]
pub open spec fn hazards(b: Body, map: TileGrid) -> Body {
    let feet = feet_tile(b, map);
    let s1 = if feet == Some(HAZARD_ID) {
        MoveState::Kill
    } else if feet == Some(GOAL_ID) {
        MoveState::Win
    } else {
        b.state
    };
    Body {
        state: if head_tile(b, map) == Some(HAZARD_ID) { MoveState::Kill } else { s1 },
        ..b
    }
}

/// The frame's time taken off the warm-up, which a win starts over; the
/// collision mark is cleared.
pub open spec fn warmed(b: Body, input: Input) -> Body {
    let w = if input.frame_us >= b.warmup_us { 0 } else { (b.warmup_us - input.frame_us) as u64 };
    Body {
        warmup_us: if b.state == MoveState::Win { WARMUP_US } else { w },
        mark: CollisionMark::Clear,
        ..b
    }
}

/// The character takes input: the warm-up is over and it is alive.
pub open spec fn active(b: Body, input: Input) -> bool {
    warmed(b, input).warmup_us == 0 && b.state != MoveState::Kill
}

/// The body once the horizontal intent and the run-stop rule have acted.
pub open spec fn after_horizontal(
    b: Body,
    input: Input,
    map: TileGrid,
    c: CurveSet,
    anim: AnimState,
    run_done: bool,
) -> Body {
    let h = horizontal(warmed(b, input), input, step_of(input.frame_us), map, c);
    if !input.left && !input.right { run_stop(h, anim, run_done) } else { h }
}

/// The body once the move, jump, coast and fall phases have acted.
pub open spec fn after_fall(
    b: Body,
    input: Input,
    map: TileGrid,
    c: CurveSet,
    anim: AnimState,
    run_done: bool,
) -> Body {
    let dt = step_of(input.frame_us);
    fall(coast(ascent(after_horizontal(b, input, map, c, anim, run_done), input, dt, map, c), c), dt, map, c)
}

/// One tick of the character. `anim` is the animation shown before the tick
/// and `run_done` tells whether that run animation has played its last cycle.
pub open spec fn step_body(
    b: Body,
    input: Input,
    map: TileGrid,
    c: CurveSet,
    anim: AnimState,
    run_done: bool,
) -> Body {
    if active(b, input) {
        hazards(crouch(after_fall(b, input, map, c, anim, run_done), input, map), map)
    } else {
        warmed(b, input)
    }
}

/// What the tick reports, decided on the state before it.
pub open spec fn outcome_of(b: Body, input: Input) -> Option<crate::state::GameState> {
    if b.state == MoveState::Win {
        Some(crate::state::GameState::Win)
    } else if b.state == MoveState::Kill && input.key_pressed {
        Some(crate::state::GameState::Dead)
    } else {
        None
    }
}

/// Bound on a coordinate that a phase of a tick accepts.
pub open spec fn phase_range(b: Body) -> bool {
    within(b, POSITION_LIMIT + 3 * STEP_BOUND)
}

/// `factor * v * dt` for a curve entry and a simulated step.
fn scaled(factor: i64, v: i64, dt: u64) -> (r: i64)
    requires
        0 <= factor <= JUMP_UP_FACTOR,
        1 <= v <= MAX_CURVE_VALUE,
        dt <= MAX_STEP_US,
    ensures
        r == factor * v * dt,
        0 <= r <= JUMP_UP_FACTOR * MAX_CURVE_VALUE * MAX_STEP_US,
{
    assert(0 <= factor * v <= JUMP_UP_FACTOR * MAX_CURVE_VALUE) by (nonlinear_arith)
        requires
            0 <= factor <= JUMP_UP_FACTOR,
            1 <= v <= MAX_CURVE_VALUE,
    ;
    assert(0 <= (factor * v) * dt <= (JUMP_UP_FACTOR * MAX_CURVE_VALUE) * MAX_STEP_US)
        by (nonlinear_arith)
        requires
            0 <= factor * v <= JUMP_UP_FACTOR * MAX_CURVE_VALUE,
            dt <= MAX_STEP_US,
    ;
    factor * v * (dt as i64)
}

fn brake_exec(b: Body, dt: u64, map: &Tilemap, c: &Curves) -> (r: Body)
    requires
        body_ok(b, c@),
        c@.wf(),
        phase_range(b),
        dt <= MAX_STEP_US,
    ensures
        r == brake(b, dt as int, map@, c@),
        body_ok(r, c@),
        near(b, r),
{
    proof {
        reveal(brake);
    }
    let b2 = if b.state == MoveState::Run {
        Body { brake_step: 0, state: MoveState::Slide, ..b }
    } else {
        b
    };
    if b2.brake_step < c.brake_len() - 1 {
        let dist = scaled(BRAKE_FACTOR, c.brake_at(b2.brake_step), dt);
        let mut x = b2.x;
        if b2.direction > 0 {
            if can_walk_right(b2.x + dist, b2.y, map, b2.duck) {
                x = b2.x + dist;
            }
        } else if b2.direction < 0 {
            if can_walk_left(b2.x - dist, b2.y, map, b2.duck) {
                x = b2.x - dist;
            }
        }
        Body { x, brake_step: b2.brake_step + 1, ..b2 }
    } else {
        Body {
            state: if b2.state != MoveState::Idle {
                MoveState::Stand
            } else {
                MoveState::Idle
            },
            direction: 0,
            ..b2
        }
    }
}

fn horizontal_exec(b: Body, input: &Input, dt: u64, map: &Tilemap, c: &Curves) -> (r: Body)
    requires
        body_ok(b, c@),
        c@.wf(),
        phase_range(b),
        dt <= MAX_STEP_US,
    ensures
        r == horizontal(b, *input, dt as int, map@, c@),
        body_ok(r, c@),
        near(b, r),
{
    proof {
        reveal(horizontal);
    }
    if input.left || input.right {
        let factor = if b.state != MoveState::Air {
            MOVE_FACTOR
        } else {
            AIR_MOVE_FACTOR
        };
        let dist = scaled(factor, c.move_speed_at(b.move_step), dt);
        let step = if b.move_step < c.move_speed_len() - 1 {
            b.move_step + 1
        } else {
            b.move_step
        };
        let state = if b.state != MoveState::Air {
            MoveState::Run
        } else {
            b.state
        };
        if input.left {
            if can_walk_left(b.x - dist, b.y, map, b.duck) {
                Body {
                    facing: Facing::Left,
                    state,
                    direction: -1,
                    x: b.x - dist,
                    move_step: step,
                    ..b
                }
            } else {
                Body {
                    direction: 1,
                    brake_step: c.brake_len() - 3,
                    mark: CollisionMark::Left,
                    ..b
                }
            }
        } else {
            if can_walk_right(b.x + dist, b.y, map, b.duck) {
                Body {
                    facing: Facing::Right,
                    state,
                    direction: 1,
                    x: b.x + dist,
                    move_step: step,
                    ..b
                }
            } else {
                Body {
                    direction: -1,
                    brake_step: c.brake_len() - 3,
                    mark: CollisionMark::Right,
                    ..b
                }
            }
        }
    } else {
        let b1 = Body { move_step: 0, ..b };
        if b.jump == JumpState::Not {
            brake_exec(b1, dt, map, c)
        } else {
            b1
        }
    }
}

fn run_stop_exec(b: Body, anim: AnimState, run_done: bool) -> (r: Body)
    ensures
        r == run_stop(b, anim, run_done),
{
    if anim == AnimState::RunLeft && run_done {
        Body { state: MoveState::Stand, facing: Facing::Left, ..b }
    } else if anim == AnimState::RunRight && run_done {
        Body { state: MoveState::Stand, facing: Facing::Right, ..b }
    } else {
        b
    }
}

fn ascent_exec(b: Body, input: &Input, dt: u64, map: &Tilemap, c: &Curves) -> (r: Body)
    requires
        body_ok(b, c@),
        c@.wf(),
        phase_range(b),
        dt <= MAX_STEP_US,
    ensures
        r == ascent(b, *input, dt as int, map@, c@),
        body_ok(r, c@),
        near(b, r),
{
    proof {
        reveal(ascent);
    }
    let mut b1 = b;
    if input.jump && (b.jump == JumpState::BuildUp || b.jump == JumpState::Not) {
        if b.jump_up_step < c.jump_up_len() - 1 {
            let started = if b.jump == JumpState::Not {
                Body { jump: JumpState::BuildUp, state: MoveState::Air, ..b }
            } else {
                b
            };
            let factor = if b.duck > 0 {
                CROUCHED_JUMP_UP_FACTOR
            } else {
                JUMP_UP_FACTOR
            };
            let dy = scaled(factor, c.jump_up_at(b.jump_up_step + 1), dt);
            let mut y = b.y;
            if can_jump_up(b.x, b.y - dy, map, b.duck) {
                y = b.y - dy;
            }
            b1 = Body { jump_up_step: b.jump_up_step + 1, y, ..started };
        } else {
            b1 = Body { state: MoveState::Air, jump: JumpState::Up, ..b };
        }
    }
    if !input.jump && b1.jump == JumpState::BuildUp {
        Body { state: MoveState::Air, jump: JumpState::Up, ..b1 }
    } else {
        b1
    }
}

fn coast_exec(b: Body, c: &Curves) -> (r: Body)
    requires
        body_ok(b, c@),
        c@.wf(),
    ensures
        r == coast(b, c@),
        body_ok(r, c@),
        r.x == b.x && r.y == b.y,
{
    proof {
        reveal(coast);
    }
    if b.jump == JumpState::Up {
        if b.air_step > c.jump_up_len() - 1 {
            Body { air_step: 0, jump: JumpState::Down, ..b }
        } else {
            Body { air_step: b.air_step + 1, ..b }
        }
    } else {
        b
    }
}

fn fall_exec(b: Body, dt: u64, map: &Tilemap, c: &Curves) -> (r: Body)
    requires
        body_ok(b, c@),
        c@.wf(),
        phase_range(b),
        dt <= MAX_STEP_US,
    ensures
        r == fall(b, dt as int, map@, c@),
        body_ok(r, c@),
        near(b, r),
{
    proof {
        reveal(fall);
    }
    if b.jump == JumpState::Down || b.jump == JumpState::Not {
        let dy = scaled(JUMP_DOWN_FACTOR, c.jump_down_at(b.jump_down_step), dt);
        let ghost g = DRIFT_FACTOR * b.direction * dt;
        assert(-DRIFT_FACTOR * MAX_STEP_US <= DRIFT_FACTOR * b.direction <= DRIFT_FACTOR
            * MAX_STEP_US) by (nonlinear_arith)
            requires
                -1 <= b.direction <= 1,
        ;
        assert(-DRIFT_FACTOR * MAX_STEP_US <= g <= DRIFT_FACTOR * MAX_STEP_US) by (nonlinear_arith)
            requires
                g == DRIFT_FACTOR * b.direction * dt,
                -1 <= b.direction <= 1,
                dt <= MAX_STEP_US,
        ;
        let dx = DRIFT_FACTOR * b.direction * (dt as i64);
        if can_walk_down(b.x + dx, b.y + dy, map) {
            Body {
                jump_down_step: if b.jump_down_step < c.jump_down_len() - 1 {
                    b.jump_down_step + 1
                } else {
                    b.jump_down_step
                },
                x: b.x + dx,
                y: b.y + dy,
                jump: JumpState::Down,
                state: MoveState::Air,
                ..b
            }
        } else {
            Body {
                jump_down_step: 0,
                jump_up_step: 0,
                state: if b.facing == Facing::Camera {
                    MoveState::Stand
                } else {
                    MoveState::Slide
                },
                jump: JumpState::Not,
                ..b
            }
        }
    } else {
        b
    }
}

fn crouch_exec(b: Body, input: &Input, map: &Tilemap) -> (r: Body)
    requires
        phase_range(b),
    ensures
        r == crouch(b, *input, map@),
        r == (Body { duck: r.duck, ..b }),
        r.duck == b.duck || r.duck == 0 || r.duck == DUCK_DISTANCE,
{
    proof {
        reveal(crouch);
    }
    if input.down {
        Body { duck: DUCK_DISTANCE, ..b }
    } else if can_jump_up(b.x, b.y, map, 0) {
        Body { duck: 0, ..b }
    } else {
        b
    }
}

/// The body after the hazard and goal check, and whether a hazard was touched.
fn hazards_exec(b: Body, map: &Tilemap) -> (r: (Body, bool))
    requires
        phase_range(b),
        0 <= b.duck <= DUCK_DISTANCE,
    ensures
        r.0 == hazards(b, map@),
        r.0 == (Body { state: r.0.state, ..b }),
        r.1 == hazard_hit(b, map@),
{
    proof {
        reveal(hazards);
    }
    let rx = round_to_pixel(b.x);
    let ry = round_to_pixel(b.y);
    let head = map.get_id_at_position(
        Layer::Logic,
        (rx + 4) * SUBPIXELS,
        (ry + 4 + b.duck) * SUBPIXELS,
    );
    let feet = map.get_id_at_position(Layer::Logic, (rx + 4) * SUBPIXELS, (ry + 12) * SUBPIXELS);
    let s1 = if feet == Some(HAZARD_ID) {
        MoveState::Kill
    } else if feet == Some(GOAL_ID) {
        MoveState::Win
    } else {
        b.state
    };
    let state = if head == Some(HAZARD_ID) {
        MoveState::Kill
    } else {
        s1
    };
    (Body { state, ..b }, head == Some(HAZARD_ID) || feet == Some(HAZARD_ID))
}

fn warmed_exec(b: Body, input: &Input) -> (r: Body)
    ensures
        r == warmed(b, *input),
{
    let w = if input.frame_us >= b.warmup_us {
        0
    } else {
        b.warmup_us - input.frame_us
    };
    Body {
        warmup_us: if b.state == MoveState::Win {
            WARMUP_US
        } else {
            w
        },
        mark: CollisionMark::Clear,
        ..b
    }
}

/// One tick of the body, with whether a jump starts and whether a hazard is touched.
pub(crate) fn step_exec(
    b: Body,
    input: &Input,
    map: &Tilemap,
    c: &Curves,
    anim: AnimState,
    run_done: bool,
) -> (r: (Body, bool, bool))
    requires
        body_ok(b, c@),
        c@.wf(),
        within(b, POSITION_LIMIT as int),
    ensures
        r.0 == step_body(b, *input, map@, c@, anim, run_done),
        body_ok(r.0, c@),
        r.1 == (active(b, *input) && jump_starts(
            after_horizontal(b, *input, map@, c@, anim, run_done),
            *input,
            c@,
        )),
        r.2 == (active(b, *input) && hazard_hit(
            crouch(after_fall(b, *input, map@, c@, anim, run_done), *input, map@),
            map@,
        )),
{
    let b0 = warmed_exec(b, input);
    if b0.warmup_us == 0 && b.state != MoveState::Kill {
        let dt = clamp_step(input.frame_us);
        let h = horizontal_exec(b0, input, dt, map, c);
        let h2 = if !input.left && !input.right {
            run_stop_exec(h, anim, run_done)
        } else {
            h
        };
        assert(h2 == after_horizontal(b, *input, map@, c@, anim, run_done));
        let jump = input.jump && h2.jump == JumpState::Not && h2.jump_up_step < c.jump_up_len() - 1;
        let a = ascent_exec(h2, input, dt, map, c);
        let co = coast_exec(a, c);
        let f = fall_exec(co, dt, map, c);
        assert(f == after_fall(b, *input, map@, c@, anim, run_done));
        let cr = crouch_exec(f, input, map);
        let (hz, hit) = hazards_exec(cr, map);
        (hz, jump, hit)
    } else {
        (b0, false, false)
    }
}

} // verus!
