use rusty_platformer::animation::{animation_for, frame_duration_us, frame_tile, frames_in};
use rusty_platformer::geometry::{clamp_step, round_to_pixel, SUBPIXELS};
use rusty_platformer::playback::{Animations, Playback};
use rusty_platformer::probe::{can_jump_up, can_walk_down, can_walk_left, can_walk_right};
use rusty_platformer::scene::{end_action, process_action};
use rusty_platformer::{AnimState, Curves, Facing, JumpState, Layer, MainState, MoveState, Tilemap};

/// A 3 by 3 map of 8-pixel tiles with a wall in the middle and a hazard on the logic layer.
fn small_map() -> Tilemap {
    let mut collision = vec![None; 9];
    collision[4] = Some(7);
    let mut logic = vec![None; 9];
    logic[8] = Some(3);
    Tilemap::new(3, 3, 8, 8, collision, logic).unwrap()
}

fn px(v: i64) -> i64 {
    v * SUBPIXELS
}

#[test]
fn tile_lookup_inside_and_outside() {
    let m = small_map();
    assert_eq!(m.get_id_at_position(Layer::Collision, px(8), px(8)), Some(7));
    assert_eq!(m.get_id_at_position(Layer::Collision, px(15), px(15)), Some(7));
    assert_eq!(m.get_id_at_position(Layer::Collision, px(16), px(8)), None);
    assert_eq!(m.get_id_at_position(Layer::Logic, px(20), px(23)), Some(3));
    assert_eq!(m.get_id_at_position(Layer::Collision, -1, px(8)), None);
    assert_eq!(m.get_id_at_position(Layer::Collision, px(8), px(24)), None);
    assert_eq!(m.get_id_at_position(Layer::Collision, px(1000), px(1000)), None);
}

#[test]
fn tile_origin_and_first_index() {
    let m = small_map();
    assert_eq!(m.first_index_of(Layer::Logic, 3), Some(8));
    assert_eq!(m.first_index_of(Layer::Logic, 2), None);
    assert_eq!(m.tile_origin(8), (px(16), px(16)));
    assert_eq!(m.tile_origin(4), (px(8), px(8)));
}

#[test]
fn tilemap_rejects_bad_shapes() {
    assert!(Tilemap::new(3, 3, 8, 8, vec![None; 8], vec![None; 9]).is_none());
    assert!(Tilemap::new(3, 3, 8, 8, vec![None; 9], vec![None; 10]).is_none());
    assert!(Tilemap::new(3, 3, 0, 8, vec![None; 9], vec![None; 9]).is_none());
    assert!(Tilemap::new(3, 3, 8, 2000, vec![None; 9], vec![None; 9]).is_none());
    assert!(Tilemap::new(0, 0, 8, 8, vec![], vec![]).is_some());
}

#[test]
fn curves_are_validated() {
    assert!(Curves::new(vec![1, 2], vec![1, 1, 1], vec![1, 1, 1], vec![1, 1, 1]).is_none());
    assert!(Curves::new(vec![1, 0, 2], vec![1, 1, 1], vec![1, 1, 1], vec![1, 1, 1]).is_none());
    assert!(Curves::new(vec![1, 1, 1], vec![1, 1, 1001], vec![1, 1, 1], vec![1, 1, 1]).is_none());
    assert!(Curves::new(vec![1; 65], vec![1, 1, 1], vec![1, 1, 1], vec![1, 1, 1]).is_none());
    assert!(Curves::new(vec![1; 64], vec![1, 1, 1], vec![1, 1, 1], vec![1000, 1, 1]).is_some());
}

#[test]
fn standard_curves_hold_the_tuned_tables() {
    let c = Curves::standard();
    assert_eq!(c.move_speed_len(), 8);
    assert_eq!(c.brake_len(), 8);
    assert_eq!(c.jump_up_len(), 12);
    assert_eq!(c.jump_down_len(), 6);
    assert_eq!(c.move_speed_at(7), 21);
    assert_eq!(c.brake_at(0), 21);
    assert_eq!(c.jump_up_at(1), 16);
    assert_eq!(c.jump_down_at(5), 10);
}

#[test]
fn rounding_goes_half_away_from_zero() {
    assert_eq!(round_to_pixel(1_500_000), 2);
    assert_eq!(round_to_pixel(1_499_999), 1);
    assert_eq!(round_to_pixel(-1_500_000), -2);
    assert_eq!(round_to_pixel(-1_499_999), -1);
    assert_eq!(round_to_pixel(0), 0);
    assert_eq!(round_to_pixel(i64::MAX), 9_223_372_036_855);
    assert_eq!(round_to_pixel(i64::MIN), -9_223_372_036_855);
}

#[test]
fn step_is_clamped_to_a_thirtieth() {
    assert_eq!(clamp_step(16_667), 16_667);
    assert_eq!(clamp_step(33_333), 33_333);
    assert_eq!(clamp_step(1_000_000), 33_333);
    assert_eq!(clamp_step(0), 0);
}

#[test]
fn probes_sample_two_rays() {
    let m = small_map();
    // Box at (0, -14): right rays at (8, -13) and (8, 0) miss the wall.
    assert!(can_walk_right(0, px(-14), &m, 0));
    // Box at (0, -6): the lower right ray (8, 8) hits the wall.
    assert!(!can_walk_right(0, px(-6), &m, 0));
    // Box at (16, -6): the lower left ray (17, 8) is clear.
    assert!(can_walk_left(px(16), px(-6), &m, 0));
    // Box at (8, -6): the left rays at x = 9 hit the wall at y = 8.
    assert!(!can_walk_left(px(8), px(-6), &m, 0));
    // Upward rays at (11, 7) and (14, 7): clear; crouched they move to y = 15.
    assert!(can_jump_up(px(8), px(4), &m, 0));
    assert!(!can_jump_up(px(8), px(4), &m, 8));
    // Feet rays at (11, 8) and (14, 8) from an exact position.
    assert!(!can_walk_down(px(8), px(-8), &m));
    assert!(can_walk_down(px(8), px(-8) - 1, &m));
}

#[test]
fn probes_round_the_candidate() {
    let m = small_map();
    // 1.4 px rounds to 1: the lower right ray lands at x = 9, inside the wall.
    assert!(!can_walk_right(1_400_000, px(-6), &m, 0));
    // -0.6 px rounds to -1: the rays land at x = 7, left of the wall.
    assert!(can_walk_right(-600_000, px(-6), &m, 0));
    assert!(can_walk_right(-500_000, px(-6), &m, 0));
    assert!(!can_walk_right(-499_999, px(-6), &m, 0));
}

#[test]
fn selector_examples() {
    assert_eq!(animation_for(MoveState::Slide, JumpState::Not, Facing::Left, true), AnimState::RunDuckLeft);
    assert_eq!(animation_for(MoveState::Air, JumpState::Up, Facing::Right, false), AnimState::AirUpRight);
    assert_eq!(animation_for(MoveState::Air, JumpState::Down, Facing::Camera, true), AnimState::AirDownDuck);
    assert_eq!(animation_for(MoveState::Air, JumpState::BuildUp, Facing::Left, false), AnimState::AirDownLeft);
    assert_eq!(animation_for(MoveState::Kill, JumpState::Up, Facing::Left, true), AnimState::Dead);
    assert_eq!(animation_for(MoveState::Win, JumpState::Not, Facing::Right, true), AnimState::Idle);
    assert_eq!(animation_for(MoveState::Run, JumpState::Not, Facing::Camera, false), AnimState::RunRight);
    assert_eq!(animation_for(MoveState::Stand, JumpState::Not, Facing::Left, true), AnimState::StandDuckLeft);
    assert_eq!(animation_for(MoveState::Stand, JumpState::Not, Facing::Camera, true), AnimState::IdleDuck);
    assert_eq!(animation_for(MoveState::Idle, JumpState::Not, Facing::Right, false), AnimState::Idle);
}

#[test]
fn selector_is_total_and_has_playbacks() {
    let states = [
        MoveState::Slide,
        MoveState::Idle,
        MoveState::Run,
        MoveState::Air,
        MoveState::Kill,
        MoveState::Win,
        MoveState::Stand,
    ];
    let jumps = [JumpState::BuildUp, JumpState::Not, JumpState::Up, JumpState::Down];
    let facings = [Facing::Left, Facing::Right, Facing::Camera];
    let registry = Animations::new();
    for s in states {
        for j in jumps {
            for f in facings {
                for c in [false, true] {
                    let a = animation_for(s, j, f, c);
                    assert_eq!(registry.playback(a), Playback { frame: 0, elapsed_us: 0, repeating: true });
                    assert!(frames_in(a) >= 2);
                }
            }
        }
    }
}

#[test]
fn frame_tables() {
    assert_eq!(frames_in(AnimState::Idle), 3);
    assert_eq!(frame_tile(AnimState::Idle, 2), 2);
    assert_eq!(frame_tile(AnimState::StandDuckLeft, 1), 48);
    assert_eq!(frame_tile(AnimState::RunLeft, 1), 33);
    assert_eq!(frame_tile(AnimState::AirDownDuck, 1), 62);
    assert_eq!(frame_tile(AnimState::Dead, 0), 63);
    assert_eq!(frame_duration_us(AnimState::Idle, 1), 200_000);
    assert_eq!(frame_duration_us(AnimState::RunRight, 1), 80_000);
    assert_eq!(frame_duration_us(AnimState::Dead, 1), 500_000);
}

#[test]
fn playback_advances_and_loops() {
    let mut r = Animations::new();
    r.advance(AnimState::RunRight, 50_000);
    assert_eq!(r.playback(AnimState::RunRight), Playback { frame: 0, elapsed_us: 50_000, repeating: true });
    r.advance(AnimState::RunRight, 50_000);
    assert_eq!(r.playback(AnimState::RunRight).frame, 1);
    r.advance(AnimState::RunRight, 80_000);
    assert_eq!(r.playback(AnimState::RunRight).frame, 0);
    assert!(!r.finish(AnimState::RunRight));
}

#[test]
fn one_shot_playback_finishes() {
    let mut r = Animations::new();
    r.set_repeating(AnimState::RunLeft, false);
    r.advance(AnimState::RunLeft, 80_000);
    assert!(!r.finish(AnimState::RunLeft));
    r.advance(AnimState::RunLeft, 80_000);
    assert!(r.finish(AnimState::RunLeft));
    assert_eq!(r.current_tile(AnimState::RunLeft), 33);
    r.reset(AnimState::RunLeft);
    assert_eq!(r.playback(AnimState::RunLeft), Playback { frame: 0, elapsed_us: 0, repeating: false });
}

#[test]
fn transition_rewinds_old_and_loops_new() {
    let mut r = Animations::new();
    r.advance(AnimState::Idle, 600_000);
    r.set_repeating(AnimState::Dead, false);
    r.transition(AnimState::Idle, AnimState::Dead);
    assert_eq!(r.playback(AnimState::Idle), Playback { frame: 0, elapsed_us: 0, repeating: false });
    assert!(r.playback(AnimState::Dead).repeating);
    r.advance(AnimState::Dead, 10);
    r.transition(AnimState::Dead, AnimState::Dead);
    assert_eq!(r.playback(AnimState::Dead).elapsed_us, 10);
}

#[test]
fn reset_all_rewinds_everything() {
    let mut r = Animations::new();
    r.advance(AnimState::Idle, 600_000);
    r.advance(AnimState::AirUp, 10);
    r.reset_all();
    assert_eq!(r.playback(AnimState::Idle).frame, 0);
    assert_eq!(r.playback(AnimState::AirUp).elapsed_us, 0);
}

#[test]
fn title_and_end_screens() {
    assert_eq!(process_action(false, false), None);
    assert_eq!(process_action(false, true), None);
    assert_eq!(process_action(true, false), Some(MainState::Game));
    assert_eq!(process_action(true, true), Some(MainState::Exit));
    assert_eq!(end_action(true), Some(MainState::Title));
    assert_eq!(end_action(false), None);
}
