use vstd::prelude::*;

use crate::animation::{anim_at, anim_index, select_animation, AnimState, ANIM_COUNT};
use crate::curves::{CurveSet, DRIFT_FACTOR};
use crate::motion::{
    active, after_fall, after_horizontal, ascent, body_ok, brake, coast, crouch, drift, fall,
    fall_distance, feet_tile, hazards, head_tile, horizontal, move_distance, rise_distance,
    step_body, step_of, warmed, Body, Input, GOAL_ID, HAZARD_ID, SPAWN_ID,
};
use crate::playback::{entry, playback_ok};
use crate::player::{player_ok, spawn_body, spawned, PlayerView};
use crate::probe::{down_clear, left_clear, right_clear, up_clear, DUCK_DISTANCE};
use crate::geometry::SUBPIXELS;
use crate::state::{Facing, JumpState, MoveState};
use crate::tilemap::{Layer, TileGrid, MAX_GRID_SIDE, MAX_TILE_SIDE};
use vstd::arithmetic::div_mod::{
    lemma_div_pos_is_pos, lemma_fundamental_div_mod, lemma_mod_pos_bound,
};

verus! {

/// Every combination of movement state, jump phase, facing and crouch has
/// an animation, and every well-formed player holds a playback that fits it.
pub proof fn lemma_animation_total(
    v: PlayerView,
    state: MoveState,
    jump: JumpState,
    facing: Facing,
    crouched: bool,
)
    requires
        player_ok(v),
    ensures
        0 <= anim_index(select_animation(state, jump, facing, crouched)) < v.playbacks.len(),
        playback_ok(
            entry(v.playbacks, select_animation(state, jump, facing, crouched)),
            select_animation(state, jump, facing, crouched),
        ),
{
    let a = select_animation(state, jump, facing, crouched);
    assert(anim_at(anim_index(a)) == a);
    assert(0 <= anim_index(a) < ANIM_COUNT);
}

/// A move left into a blocked probe leaves the horizontal coordinate as it was.
pub proof fn lemma_blocked_left(b: Body, input: Input, dt: int, map: TileGrid, c: CurveSet)
    requires
        input.left,
        !left_clear(map, b.x - move_distance(b, c, dt), b.y as int, b.duck as int),
    ensures
        horizontal(b, input, dt, map, c).x == b.x,
{
    reveal(horizontal);
}

/// A move right into a blocked probe leaves the horizontal coordinate as it was.
pub proof fn lemma_blocked_right(b: Body, input: Input, dt: int, map: TileGrid, c: CurveSet)
    requires
        !input.left,
        input.right,
        !right_clear(map, b.x + move_distance(b, c, dt), b.y as int, b.duck as int),
    ensures
        horizontal(b, input, dt, map, c).x == b.x,
{
    reveal(horizontal);
}

/// A rise into a blocked ceiling leaves the vertical coordinate as it was.
pub proof fn lemma_blocked_rise(b: Body, input: Input, dt: int, map: TileGrid, c: CurveSet)
    requires
        !up_clear(map, b.x as int, b.y - rise_distance(b, c, dt), b.duck as int),
    ensures
        ascent(b, input, dt, map, c).y == b.y,
{
    reveal(ascent);
}

/// A fall onto a blocked feet probe leaves both coordinates as they were.
pub proof fn lemma_blocked_fall(b: Body, dt: int, map: TileGrid, c: CurveSet)
    requires
        !down_clear(map, b.x + drift(b, dt), b.y + fall_distance(b, c, dt)),
    ensures
        fall(b, dt, map, c).x == b.x,
        fall(b, dt, map, c).y == b.y,
{
    reveal(fall);
}

/// A grounded character that walks into a wall stays where it is for the
/// whole tick: it turns back, its brake step is set near the end of the brake
/// curve, and the feet probe (shifted by the drift away from the wall) keeps it
/// on the ground.
pub proof fn lemma_wall_stop(
    b: Body,
    input: Input,
    map: TileGrid,
    c: CurveSet,
    anim: AnimState,
    run_done: bool,
)
    requires
        body_ok(b, c),
        c.wf(),
        active(b, input),
        b.jump == JumpState::Not,
        input.left != input.right,
        !input.jump,
        input.left ==> !left_clear(
            map,
            b.x - move_distance(b, c, step_of(input.frame_us)),
            b.y as int,
            b.duck as int,
        ),
        input.left ==> !down_clear(
            map,
            b.x + drift(Body { direction: 1i64, ..b }, step_of(input.frame_us)),
            b.y + fall_distance(b, c, step_of(input.frame_us)),
        ),
        input.right ==> !right_clear(
            map,
            b.x + move_distance(b, c, step_of(input.frame_us)),
            b.y as int,
            b.duck as int,
        ),
        input.right ==> !down_clear(
            map,
            b.x + drift(Body { direction: -1i64, ..b }, step_of(input.frame_us)),
            b.y + fall_distance(b, c, step_of(input.frame_us)),
        ),
    ensures
        step_body(b, input, map, c, anim, run_done).x == b.x,
        step_body(b, input, map, c, anim, run_done).y == b.y,
        step_body(b, input, map, c, anim, run_done).direction == if input.left { 1i64 } else { -1i64 },
        step_body(b, input, map, c, anim, run_done).brake_step == c.brake.len() - 3,
{
    reveal(horizontal);
    reveal(ascent);
    reveal(coast);
    reveal(fall);
    reveal(crouch);
    reveal(hazards);
}

/// While a direction key is held and the way is clear the move-speed step
/// grows by one, up to the last entry of its curve; with no direction key
/// it drops to 0.
pub proof fn lemma_move_step(
    b: Body,
    input: Input,
    map: TileGrid,
    c: CurveSet,
    anim: AnimState,
    run_done: bool,
)
    requires
        body_ok(b, c),
        c.wf(),
        active(b, input),
    ensures
        ({
            let w = warmed(b, input);
            let dt = step_of(input.frame_us);
            let r = step_body(b, input, map, c, anim, run_done);
            &&& (input.left && left_clear(map, w.x - move_distance(w, c, dt), w.y as int, w.duck as int))
                ==> r.move_step == if b.move_step < c.move_speed.len() - 1 {
                b.move_step + 1
            } else {
                b.move_step as int
            }
            &&& (!input.left && input.right && right_clear(
                map,
                w.x + move_distance(w, c, dt),
                w.y as int,
                w.duck as int,
            )) ==> r.move_step == if b.move_step < c.move_speed.len() - 1 {
                b.move_step + 1
            } else {
                b.move_step as int
            }
            &&& (!input.left && !input.right) ==> r.move_step == 0
            &&& r.move_step < c.move_speed.len()
        }),
{
    reveal(horizontal);
    reveal(brake);
    reveal(ascent);
    reveal(coast);
    reveal(fall);
    reveal(crouch);
    reveal(hazards);
}

/// Neither a hazard nor the goal is under the feet of `b`, and no hazard at
/// its head, crouched or not.
pub open spec fn safe_spot(b: Body, map: TileGrid) -> bool {
    &&& feet_tile(b, map) != Some(HAZARD_ID)
    &&& feet_tile(b, map) != Some(GOAL_ID)
    &&& head_tile(Body { duck: 0, ..b }, map) != Some(HAZARD_ID)
    &&& head_tile(Body { duck: DUCK_DISTANCE, ..b }, map) != Some(HAZARD_ID)
}

/// A grounded character with no input and a spent brake curve keeps its
/// position, stays grounded and settles: standing when it faces the camera,
/// and a second such tick changes nothing.
pub proof fn lemma_settled(
    b: Body,
    input: Input,
    map: TileGrid,
    c: CurveSet,
    anim: AnimState,
    run_done: bool,
)
    requires
        body_ok(b, c),
        c.wf(),
        active(b, input),
        !input.left && !input.right && !input.jump && !input.down,
        b.jump == JumpState::Not,
        b.state != MoveState::Run,
        b.brake_step >= c.brake.len() - 1,
        !down_clear(map, b.x as int, b.y + fall_distance(b, c, step_of(input.frame_us))),
        safe_spot(b, map),
    ensures
        ({
            let r = step_body(b, input, map, c, anim, run_done);
            &&& r.x == b.x
            &&& r.y == b.y
            &&& r.jump == JumpState::Not
            &&& r.brake_step == b.brake_step
            &&& r.direction == 0
            &&& (b.facing == Facing::Camera && !run_done) ==> r.state == MoveState::Stand
            &&& r.state == MoveState::Stand || r.state == MoveState::Slide
            &&& !down_clear(map, r.x as int, r.y + fall_distance(r, c, step_of(input.frame_us)))
                ==> step_body(r, input, map, c, anim, false) == r
        }),
{
    reveal(horizontal);
    reveal(brake);
    reveal(ascent);
    reveal(coast);
    reveal(fall);
    reveal(crouch);
    reveal(hazards);
    let dt = step_of(input.frame_us);
    let co = coast(ascent(after_horizontal(b, input, map, c, anim, run_done), input, dt, map, c), c);
    assert(DRIFT_FACTOR * co.direction * dt == 0) by (nonlinear_arith)
        requires
            co.direction == 0,
    ;
    let r = step_body(b, input, map, c, anim, run_done);
    assert(feet_tile(r, map) == feet_tile(b, map));
    assert(head_tile(Body { duck: 0, ..r }, map) == head_tile(Body { duck: 0, ..b }, map));
    assert(head_tile(Body { duck: DUCK_DISTANCE, ..r }, map) == head_tile(
        Body { duck: DUCK_DISTANCE, ..b },
        map,
    ));
    assert(safe_spot(r, map));
}

/// A crouched character stays crouched while something is overhead at the
/// standing height, whether or not the down key is held.
pub proof fn lemma_crouch_kept(
    b: Body,
    input: Input,
    map: TileGrid,
    c: CurveSet,
    anim: AnimState,
    run_done: bool,
)
    requires
        b.duck == DUCK_DISTANCE,
        active(b, input) ==> !up_clear(
            map,
            after_fall(b, input, map, c, anim, run_done).x as int,
            after_fall(b, input, map, c, anim, run_done).y as int,
            0,
        ),
    ensures
        step_body(b, input, map, c, anim, run_done).duck == DUCK_DISTANCE,
{
    reveal(horizontal);
    reveal(brake);
    reveal(ascent);
    reveal(coast);
    reveal(fall);
    reveal(crouch);
    reveal(hazards);
}

/// A reset puts the character on the spawn tile, idle, with every counter at
/// 0: when the logic layer holds exactly one spawn tile, at index `i`, the
/// position is that tile's corner.
pub proof fn lemma_reset_spawn(b: Body, map: TileGrid, i: int)
    requires
        map.wf(),
        spawned(b, map),
        0 <= i < map.logic.len(),
        map.logic[i] == Some(SPAWN_ID),
        forall|j: int| 0 <= j < map.logic.len() && j != i ==> map.logic[j] != Some(SPAWN_ID),
    ensures
        b.x == map.origin_of(i).0,
        b.y == map.origin_of(i).1,
        b.state == MoveState::Idle,
        b.jump == JumpState::Not,
        b.move_step == 0,
        b.brake_step == 0,
        b.air_step == 0,
        b.jump_up_step == 0,
        b.jump_down_step == 0,
{
    let k = choose|k: int|
        map.is_first_index_of(Layer::Logic, SPAWN_ID, k) && b == spawn_body(
            map.origin_of(k).0,
            map.origin_of(k).1,
        );
    assert(k == i);
    let cols = map.columns as int;
    let rows = map.rows as int;
    assert(cols > 0) by (nonlinear_arith)
        requires
            0 <= i < cols * rows,
            rows >= 0,
    ;
    let col = i % cols;
    let row = i / cols;
    lemma_mod_pos_bound(i, cols);
    lemma_div_pos_is_pos(i, cols);
    lemma_fundamental_div_mod(i, cols);
    assert(row < rows) by (nonlinear_arith)
        requires
            i == cols * row + col,
            0 <= col,
            i < cols * rows,
            cols > 0,
    ;
    let tw = map.tile_width;
    let th = map.tile_height;
    assert(0 <= col * tw * SUBPIXELS <= MAX_GRID_SIDE * MAX_TILE_SIDE * SUBPIXELS)
        by (nonlinear_arith)
        requires
            0 <= col < MAX_GRID_SIDE,
            0 < tw <= MAX_TILE_SIDE,
    ;
    assert(0 <= row * th * SUBPIXELS <= MAX_GRID_SIDE * MAX_TILE_SIDE * SUBPIXELS)
        by (nonlinear_arith)
        requires
            0 <= row < MAX_GRID_SIDE,
            0 < th <= MAX_TILE_SIDE,
    ;
}

} // verus!
