use rusty_platformer::geometry::SUBPIXELS;
use rusty_platformer::{Input, Tilemap};

/// Builds an 8-pixel-tile map from rows of text: `#` is a wall, `S` the spawn
/// tile, `B` a wall on the spawn tile, `X` a hazard, `G` the goal, `H` a wall
/// that is also a hazard.
pub fn map_from(rows: &[&str]) -> Tilemap {
    let columns = rows[0].len();
    let mut collision = Vec::new();
    let mut logic = Vec::new();
    for row in rows {
        for ch in row.chars() {
            collision.push(if ch == '#' || ch == 'H' || ch == 'B' { Some(1) } else { None });
            logic.push(match ch {
                'S' | 'B' => Some(2),
                'X' | 'H' => Some(3),
                'G' => Some(1),
                _ => None,
            });
        }
    }
    Tilemap::new(columns, rows.len(), 8, 8, collision, logic).unwrap()
}

pub fn px(v: i64) -> i64 {
    v * SUBPIXELS
}

pub fn idle(frame_us: u64) -> Input {
    Input { left: false, right: false, jump: false, down: false, key_pressed: false, frame_us }
}

#[test]
fn map_from_reads_layers() {
    let map = map_from(&["#S", "XG"]);
    assert_eq!(map.first_index_of(rusty_platformer::Layer::Logic, 2), Some(1));
    assert_eq!(map.first_index_of(rusty_platformer::Layer::Logic, 3), Some(2));
    assert_eq!(map.first_index_of(rusty_platformer::Layer::Collision, 1), Some(0));
}

use rusty_platformer::animation::AnimState;
use rusty_platformer::curves::Curves;
use rusty_platformer::player::Player;
use rusty_platformer::{CollisionMark, Facing, Game, GameState, JumpState, MainState, MoveState};

const FRAME: u64 = 16_667;

/// Open room, spawn on the floor at tile (3, 7): pixel (24, 56).
fn room() -> Tilemap {
    map_from(&[
        "############",
        "#..........#",
        "#..........#",
        "#..........#",
        "#..........#",
        "#..........#",
        "#..........#",
        "#..S.......#",
        "#..........#",
        "############",
    ])
}

fn input(left: bool, right: bool, jump: bool, down: bool) -> Input {
    Input { left, right, jump, down, key_pressed: left || right || jump || down, frame_us: FRAME }
}

/// A player on the spawn tile of `map` whose warm-up is over and who stands still.
fn ready(map: &Tilemap) -> Player {
    let mut p = Player::new();
    p.reset(map);
    p.update(&idle(1_000_000), map);
    p
}

#[test]
fn reset_places_on_spawn_tile() {
    let map = room();
    let mut p = Player::new();
    p.reset(&map);
    let b = p.body();
    assert_eq!((b.x, b.y), (px(24), px(56)));
    assert_eq!(b.state, MoveState::Idle);
    assert_eq!(b.jump, JumpState::Not);
    assert_eq!(b.facing, Facing::Camera);
    assert_eq!(
        (b.move_step, b.brake_step, b.air_step, b.jump_up_step, b.jump_down_step),
        (0, 0, 0, 0, 0)
    );
    assert_eq!(b.warmup_us, 1_000_000);
    assert_eq!(p.current_animation(), AnimState::Idle);
    assert_eq!(p.position(), (24, 56));
}

#[test]
fn reset_after_moving_reinitialises() {
    let map = room();
    let mut p = ready(&map);
    for _ in 0..30 {
        p.update(&input(false, true, true, false), &map);
    }
    assert_ne!(p.body().x, px(24));
    p.reset(&map);
    let b = p.body();
    assert_eq!((b.x, b.y), (px(24), px(56)));
    assert_eq!(b.state, MoveState::Idle);
    assert_eq!(b.jump, JumpState::Not);
    assert_eq!(b.direction, 0);
    assert_eq!(
        (b.move_step, b.brake_step, b.air_step, b.jump_up_step, b.jump_down_step),
        (0, 0, 0, 0, 0)
    );
}

#[test]
fn warm_up_holds_input_back() {
    let map = room();
    let mut p = Player::new();
    p.reset(&map);
    for _ in 0..59 {
        p.update(&input(false, true, false, false), &map);
        assert_eq!(p.body().x, px(24));
    }
    p.update(&input(false, true, false, false), &map);
    assert_eq!(p.body().warmup_us, 0);
    assert_eq!(p.body().x, px(24) + 3 * 1 * FRAME as i64);
}

#[test]
fn one_move_step_is_exact() {
    let map = room();
    let mut p = ready(&map);
    let x0 = p.body().x;
    p.update(&input(false, true, false, false), &map);
    assert_eq!(p.body().x, x0 + 50_001);
    assert_eq!(p.body().state, MoveState::Slide);
    assert_eq!(p.body().facing, Facing::Right);
    assert_eq!(p.current_animation(), AnimState::RunRight);
}

#[test]
fn ready_player_stands_facing_camera() {
    let map = room();
    let p = ready(&map);
    assert_eq!(p.body().state, MoveState::Stand);
    assert_eq!(p.body().jump, JumpState::Not);
    assert_eq!(p.current_animation(), AnimState::Idle);
}

#[test]
fn crouch_from_neutral_stance() {
    let map = room();
    let mut p = ready(&map);
    assert!(!p.is_crouched());
    p.update(&input(false, false, false, true), &map);
    assert_eq!(p.body().duck, 8);
    assert!(p.is_crouched());
    assert_eq!(p.get_animation_state(), AnimState::IdleDuck);
    assert_eq!(p.current_animation(), AnimState::IdleDuck);
}

#[test]
fn uncrouch_where_clear() {
    let map = room();
    let mut p = ready(&map);
    p.update(&input(false, false, false, true), &map);
    p.update(&idle(FRAME), &map);
    assert_eq!(p.body().duck, 0);
}

#[test]
fn crouch_kept_under_ceiling() {
    // A wall at the standing head height of the spawn column.
    let map = map_from(&[
        "############",
        "#..........#",
        "#..........#",
        "#..........#",
        "#..........#",
        "#..........#",
        "#..........#",
        "#..B.......#",
        "#..........#",
        "############",
    ]);
    let mut p = Player::new();
    p.reset(&map);
    p.update(&Input { down: true, ..idle(1_000_000) }, &map);
    assert_eq!(p.body().duck, 8);
    for _ in 0..5 {
        p.update(&idle(FRAME), &map);
        assert_eq!(p.body().duck, 8);
    }
}

#[test]
fn wall_turns_character_back() {
    let map = room();
    let mut p = ready(&map);
    let mut blocked = false;
    for _ in 0..2000 {
        let before = p.body();
        p.update(&input(true, false, false, false), &map);
        let after = p.body();
        if after.mark == CollisionMark::Left {
            assert_eq!(after.direction, 1);
            assert_eq!(after.brake_step, 8 - 3);
            assert_eq!((after.x, after.y), (before.x, before.y));
            blocked = true;
            break;
        }
        assert_eq!(after.direction, -1);
    }
    assert!(blocked);
}

#[test]
fn wall_on_the_right() {
    let map = room();
    let mut p = ready(&map);
    let mut blocked = false;
    for _ in 0..2000 {
        let before = p.body();
        p.update(&input(false, true, false, false), &map);
        let after = p.body();
        if after.mark == CollisionMark::Right {
            assert_eq!(after.direction, -1);
            assert_eq!(after.brake_step, 5);
            assert_eq!((after.x, after.y), (before.x, before.y));
            blocked = true;
            break;
        }
    }
    assert!(blocked);
    // The right wall starts at pixel 88; the right rays sit 8 pixels in.
    assert!(p.position().0 + 8 < 88 + 1);
}

#[test]
fn move_step_grows_then_saturates_then_resets() {
    let map = room();
    let mut p = ready(&map);
    for k in 1..12usize {
        p.update(&input(false, true, false, false), &map);
        assert_eq!(p.body().move_step, std::cmp::min(k, 7));
    }
    p.update(&idle(FRAME), &map);
    assert_eq!(p.body().move_step, 0);
}

#[test]
fn brake_then_settle() {
    let map = room();
    let mut p = ready(&map);
    for _ in 0..10 {
        p.update(&input(false, true, false, false), &map);
    }
    assert_eq!(p.body().brake_step, 1);
    assert_eq!(p.body().direction, 1);
    let mut x = p.body().x;
    let mut slides = 0;
    while p.body().brake_step < 7 {
        p.update(&idle(FRAME), &map);
        assert!(p.body().x > x);
        assert_eq!(p.body().state, MoveState::Slide);
        x = p.body().x;
        slides += 1;
    }
    assert_eq!(slides, 6);
    assert_eq!(p.body().brake_step, 7);
    for _ in 0..20 {
        p.update(&idle(FRAME), &map);
        assert_eq!(p.body().x, x);
        assert_eq!(p.body().y, px(56));
        assert_eq!(p.body().jump, JumpState::Not);
        assert_eq!(p.body().direction, 0);
    }
}

#[test]
fn settles_standing_facing_camera() {
    let map = room();
    let mut p = ready(&map);
    let b = p.body();
    for _ in 0..10 {
        p.update(&idle(FRAME), &map);
        assert_eq!(p.body().state, MoveState::Stand);
        assert_eq!((p.body().x, p.body().y), (b.x, b.y));
    }
}

#[test]
fn ascent_ends_when_curve_spent() {
    let map = room();
    let mut p = ready(&map);
    let up = input(false, false, true, false);
    for k in 1..12usize {
        let t = p.update(&up, &map);
        assert_eq!(p.body().jump, JumpState::BuildUp);
        assert_eq!(p.body().jump_up_step, k);
        assert_eq!(p.body().state, MoveState::Air);
        assert_eq!(t.jump_sound, k == 1);
    }
    assert!(p.body().y < px(56));
    p.update(&up, &map);
    assert_eq!(p.body().jump, JumpState::Up);
    assert_eq!(p.body().jump_up_step, 11);
}

#[test]
fn releasing_jump_starts_coast_then_fall_then_landing() {
    let map = room();
    let mut p = ready(&map);
    p.update(&input(false, false, true, false), &map);
    p.update(&idle(FRAME), &map);
    assert_eq!(p.body().jump, JumpState::Up);
    let mut saw_down = false;
    for _ in 0..200 {
        p.update(&idle(FRAME), &map);
        if p.body().jump == JumpState::Down {
            saw_down = true;
        }
        if saw_down && p.body().jump == JumpState::Not {
            break;
        }
    }
    assert!(saw_down);
    assert_eq!(p.body().jump, JumpState::Not);
    assert_eq!(p.body().state, MoveState::Stand);
    assert_eq!(p.body().jump_up_step, 0);
    assert_eq!(p.body().jump_down_step, 0);
}

#[test]
fn ceiling_absorbs_rise() {
    let map = map_from(&[
        "############",
        "#..........#",
        "#..........#",
        "#..........#",
        "#..........#",
        "#..........#",
        "#..#.......#",
        "#..S.......#",
        "#..........#",
        "############",
    ]);
    let mut p = ready(&map);
    p.update(&input(false, false, true, false), &map);
    assert_eq!(p.body().y, px(56));
    assert_eq!(p.body().jump, JumpState::BuildUp);
    assert_eq!(p.body().jump_up_step, 1);
}

#[test]
fn hazard_kills_and_waits_for_key() {
    let map = map_from(&[
        "############",
        "#..........#",
        "#..........#",
        "#..........#",
        "#..........#",
        "#..........#",
        "#..........#",
        "#..S.......#",
        "#..X.......#",
        "############",
    ]);
    let mut p = Player::new();
    p.reset(&map);
    let t = p.update(&idle(1_000_000), &map);
    assert_eq!(p.body().state, MoveState::Kill);
    assert_eq!(t.outcome, None);
    assert!(t.dead_sound);
    assert_eq!(p.current_animation(), AnimState::Dead);
    let t = p.update(&idle(FRAME), &map);
    assert_eq!(t.outcome, None);
    assert!(!t.dead_sound);
    let t = p.update(&input(false, true, false, false), &map);
    assert_eq!(t.outcome, Some(GameState::Dead));
    assert_eq!(p.body().x, px(24));
}

#[test]
fn goal_wins_every_tick() {
    let map = map_from(&[
        "############",
        "#..........#",
        "#..........#",
        "#..........#",
        "#..........#",
        "#..........#",
        "#..........#",
        "#..S.......#",
        "#..G.......#",
        "############",
    ]);
    let mut p = Player::new();
    p.reset(&map);
    let t = p.update(&idle(1_000_000), &map);
    assert_eq!(t.outcome, None);
    assert_eq!(p.body().state, MoveState::Win);
    for _ in 0..3 {
        let t = p.update(&input(false, true, false, false), &map);
        assert_eq!(t.outcome, Some(GameState::Win));
        assert_eq!(p.body().x, px(24));
    }
}

#[test]
fn game_respawns_after_death() {
    let map = map_from(&[
        "############",
        "#..........#",
        "#..S.......#",
        "#..........#",
        "#..........#",
        "#..........#",
        "#..........#",
        "#..........#",
        "#XXXXXXXXXX#",
        "############",
    ]);
    let mut game = Game::init(map).unwrap();
    assert_eq!(game.game_state(), GameState::Game);
    let mut died = false;
    for _ in 0..300 {
        let r = game.run(&idle(50_000));
        assert_eq!(r, None);
        if game.player().body().state == MoveState::Kill {
            died = true;
            break;
        }
    }
    assert!(died);
    let r = game.run(&Input { key_pressed: true, ..idle(FRAME) });
    assert_eq!(r, None);
    assert_eq!(game.last_tick().outcome, Some(GameState::Dead));
    assert_eq!(game.player().body().state, MoveState::Idle);
    assert_eq!((game.player().body().x, game.player().body().y), (px(24), px(16)));
}

#[test]
fn game_reports_end_on_win() {
    let map = map_from(&[
        "######",
        "#....#",
        "#S...#",
        "#G...#",
        "######",
    ]);
    let mut game = Game::init(map).unwrap();
    assert_eq!(game.run(&idle(1_000_000)), None);
    assert_eq!(game.run(&idle(FRAME)), Some(MainState::End));
}

#[test]
fn game_needs_spawn_tile() {
    let map = map_from(&["####", "#..#", "####"]);
    assert!(Game::init(map).is_none());
}

#[test]
fn game_reset_returns_to_spawn() {
    let mut game = Game::init(room()).unwrap();
    game.run(&idle(1_000_000));
    for _ in 0..20 {
        game.run(&input(true, false, false, false));
    }
    assert_ne!(game.player().body().x, px(24));
    game.reset();
    assert_eq!(game.player().body().x, px(24));
    assert_eq!(game.player().body().state, MoveState::Idle);
}

#[test]
fn custom_curves_are_used() {
    let curves =
        Curves::new(vec![10, 10, 10], vec![1, 1, 1], vec![1, 1, 1], vec![1, 1, 1]).unwrap();
    let map = room();
    let mut p = Player::with_curves(curves);
    p.reset(&map);
    p.update(&idle(1_000_000), &map);
    let x0 = p.body().x;
    p.update(&input(false, true, false, false), &map);
    assert_eq!(p.body().x, x0 + 3 * 10 * FRAME as i64);
}

#[test]
fn long_frames_are_clamped() {
    let map = room();
    let mut p = ready(&map);
    let x0 = p.body().x;
    p.update(&Input { right: true, ..idle(500_000) }, &map);
    assert_eq!(p.body().x, x0 + 3 * 33_333);
}

#[test]
fn falling_off_the_map_is_not_fatal() {
    let map = map_from(&["S..", "..."]);
    let mut p = Player::new();
    p.reset(&map);
    p.update(&idle(1_000_000), &map);
    for _ in 0..50 {
        p.update(&idle(FRAME), &map);
    }
    assert_eq!(p.body().jump, JumpState::Down);
    assert!(p.body().y > px(16));
}

#[test]
fn sprite_tile_follows_animation() {
    let map = room();
    let mut p = ready(&map);
    assert_eq!(p.sprite_tile(), 1);
    p.update(&input(false, true, false, false), &map);
    assert_eq!(p.sprite_tile(), 24);
}

#[test]
fn rise_step_is_exact() {
    let map = room();
    let mut p = ready(&map);
    p.update(&input(false, false, true, false), &map);
    assert_eq!(p.body().y, px(56) - 14 * 16 * FRAME as i64);
}

#[test]
fn crouched_rise_is_halved() {
    let map = room();
    let mut p = ready(&map);
    p.update(&input(false, false, false, true), &map);
    assert!(p.is_crouched());
    p.update(&input(false, false, true, true), &map);
    assert_eq!(p.body().y, px(56) - 7 * 16 * FRAME as i64);
}

#[test]
fn fall_steps_are_exact() {
    let map = map_from(&["S..", "..."]);
    let mut p = Player::new();
    p.reset(&map);
    p.update(&idle(1_000_000), &map);
    assert_eq!(p.body().y, 12 * 1 * 33_333);
    assert_eq!(p.body().jump_down_step, 1);
    p.update(&idle(FRAME), &map);
    assert_eq!(p.body().y, 12 * 33_333 + 12 * 1 * FRAME as i64);
    p.update(&idle(FRAME), &map);
    assert_eq!(p.body().y, 12 * 33_333 + 12 * FRAME as i64 + 12 * 2 * FRAME as i64);
}

#[test]
fn drift_while_falling_is_exact() {
    let map = map_from(&["S.........", "..........", ".........."]);
    let mut p = Player::new();
    p.reset(&map);
    p.update(&Input { right: true, ..idle(1_000_000) }, &map);
    // The move (3 * 1 * 33_333) and then the drift of the fall (2 * 33_333).
    assert_eq!(p.body().x, 3 * 33_333 + 2 * 33_333);
    assert_eq!(p.body().state, MoveState::Air);
    assert_eq!(p.body().jump, JumpState::Down);
}

#[test]
fn air_move_uses_the_air_factor() {
    let map = map_from(&["S.........", "..........", ".........."]);
    let mut p = Player::new();
    p.reset(&map);
    p.update(&idle(1_000_000), &map);
    assert_eq!(p.body().state, MoveState::Air);
    let x0 = p.body().x;
    p.update(&input(false, true, false, false), &map);
    assert_eq!(p.body().x, x0 + 2 * 1 * FRAME as i64 + 2 * FRAME as i64);
}

#[test]
fn first_brake_step_is_exact() {
    let map = room();
    let mut p = ready(&map);
    p.update(&input(false, true, false, false), &map);
    let x0 = p.body().x;
    assert_eq!(p.body().brake_step, 1);
    p.update(&idle(FRAME), &map);
    assert_eq!(p.body().x, x0 + 5 * 13 * FRAME as i64);
    assert_eq!(p.body().brake_step, 2);
}
