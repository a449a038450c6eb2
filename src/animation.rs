use vstd::prelude::*;

use crate::state::{Facing, JumpState, MoveState};

verus! {

/// Number of animations.
pub const ANIM_COUNT: usize = 23;

/// The sprite animation shown for a combination of states.
#[derive(Clone, Copy, Debug, PartialEq, Eq, Structural)]
pub enum AnimState {
    RunLeft,
    RunRight,
    StandLeft,
    StandRight,
    RunDuckLeft,
    RunDuckRight,
    StandDuckLeft,
    StandDuckRight,
    AirUp,
    AirUpDuck,
    AirDown,
    AirDownDuck,
    AirUpLeft,
    AirUpDuckLeft,
    AirUpRight,
    AirUpDuckRight,
    AirDownLeft,
    AirDownDuckLeft,
    AirDownRight,
    AirDownDuckRight,
    Idle,
    IdleDuck,
    Dead,
}

/// The animation for a movement state, jump phase, facing and crouch.
pub open spec fn select_animation(
    state: MoveState,
    jump: JumpState,
    facing: Facing,
    crouched: bool,
) -> AnimState {
    match state {
        MoveState::Slide => match facing {
            Facing::Left => if crouched { AnimState::RunDuckLeft } else { AnimState::RunLeft },
            Facing::Right => if crouched { AnimState::RunDuckRight } else { AnimState::RunRight },
            Facing::Camera => if crouched { AnimState::IdleDuck } else { AnimState::Idle },
        },
        MoveState::Idle => if crouched { AnimState::IdleDuck } else { AnimState::Idle },
        MoveState::Run => match facing {
            Facing::Left => if crouched { AnimState::RunDuckLeft } else { AnimState::RunLeft },
            _ => if crouched { AnimState::RunDuckRight } else { AnimState::RunRight },
        },
        MoveState::Kill => AnimState::Dead,
        MoveState::Stand => match facing {
            Facing::Left => if crouched { AnimState::StandDuckLeft } else { AnimState::StandLeft },
            Facing::Right => if crouched { AnimState::StandDuckRight } else { AnimState::StandRight },
            Facing::Camera => if crouched { AnimState::IdleDuck } else { AnimState::Idle },
        },
        MoveState::Air => {
            let up = jump == JumpState::Up;
            match facing {
                Facing::Left => if up {
                    if crouched { AnimState::AirUpDuckLeft } else { AnimState::AirUpLeft }
                } else {
                    if crouched { AnimState::AirDownDuckLeft } else { AnimState::AirDownLeft }
                },
                Facing::Right => if up {
                    if crouched { AnimState::AirUpDuckRight } else { AnimState::AirUpRight }
                } else {
                    if crouched { AnimState::AirDownDuckRight } else { AnimState::AirDownRight }
                },
                Facing::Camera => if up {
                    if crouched { AnimState::AirUpDuck } else { AnimState::AirUp }
                } else {
                    if crouched { AnimState::AirDownDuck } else { AnimState::AirDown }
                },
            }
        },
        MoveState::Win => AnimState::Idle,
    }
}

/// Picks the animation for a movement state, jump phase, facing and crouch.
pub fn animation_for(state: MoveState, jump: JumpState, facing: Facing, crouched: bool) -> (r:
    AnimState)
    ensures
        r == select_animation(state, jump, facing, crouched),
{
    match state {
        MoveState::Slide => match facing {
            Facing::Left => if crouched { AnimState::RunDuckLeft } else { AnimState::RunLeft },
            Facing::Right => if crouched { AnimState::RunDuckRight } else { AnimState::RunRight },
            Facing::Camera => if crouched { AnimState::IdleDuck } else { AnimState::Idle },
        },
        MoveState::Idle => if crouched { AnimState::IdleDuck } else { AnimState::Idle },
        MoveState::Run => match facing {
            Facing::Left => if crouched { AnimState::RunDuckLeft } else { AnimState::RunLeft },
            _ => if crouched { AnimState::RunDuckRight } else { AnimState::RunRight },
        },
        MoveState::Kill => AnimState::Dead,
        MoveState::Stand => match facing {
            Facing::Left => if crouched { AnimState::StandDuckLeft } else { AnimState::StandLeft },
            Facing::Right => if crouched { AnimState::StandDuckRight } else { AnimState::StandRight },
            Facing::Camera => if crouched { AnimState::IdleDuck } else { AnimState::Idle },
        },
        MoveState::Air => {
            let up = match jump {
                JumpState::Up => true,
                _ => false,
            };
            match facing {
                Facing::Left => if up {
                    if crouched { AnimState::AirUpDuckLeft } else { AnimState::AirUpLeft }
                } else {
                    if crouched { AnimState::AirDownDuckLeft } else { AnimState::AirDownLeft }
                },
                Facing::Right => if up {
                    if crouched { AnimState::AirUpDuckRight } else { AnimState::AirUpRight }
                } else {
                    if crouched { AnimState::AirDownDuckRight } else { AnimState::AirDownRight }
                },
                Facing::Camera => if up {
                    if crouched { AnimState::AirUpDuck } else { AnimState::AirUp }
                } else {
                    if crouched { AnimState::AirDownDuck } else { AnimState::AirDown }
                },
            }
        },
        MoveState::Win => AnimState::Idle,
    }
}

/// Position of an animation in the registry.
pub open spec fn anim_index(a: AnimState) -> int {
    match a {
        AnimState::RunLeft => 0,
        AnimState::RunRight => 1,
        AnimState::StandLeft => 2,
        AnimState::StandRight => 3,
        AnimState::RunDuckLeft => 4,
        AnimState::RunDuckRight => 5,
        AnimState::StandDuckLeft => 6,
        AnimState::StandDuckRight => 7,
        AnimState::AirUp => 8,
        AnimState::AirUpDuck => 9,
        AnimState::AirDown => 10,
        AnimState::AirDownDuck => 11,
        AnimState::AirUpLeft => 12,
        AnimState::AirUpDuckLeft => 13,
        AnimState::AirUpRight => 14,
        AnimState::AirUpDuckRight => 15,
        AnimState::AirDownLeft => 16,
        AnimState::AirDownDuckLeft => 17,
        AnimState::AirDownRight => 18,
        AnimState::AirDownDuckRight => 19,
        AnimState::Idle => 20,
        AnimState::IdleDuck => 21,
        AnimState::Dead => 22,
    }
}

/// The animation stored at registry position `i`.
pub open spec fn anim_at(i: int) -> AnimState {
    if i == 0 { AnimState::RunLeft }
    else if i == 1 { AnimState::RunRight }
    else if i == 2 { AnimState::StandLeft }
    else if i == 3 { AnimState::StandRight }
    else if i == 4 { AnimState::RunDuckLeft }
    else if i == 5 { AnimState::RunDuckRight }
    else if i == 6 { AnimState::StandDuckLeft }
    else if i == 7 { AnimState::StandDuckRight }
    else if i == 8 { AnimState::AirUp }
    else if i == 9 { AnimState::AirUpDuck }
    else if i == 10 { AnimState::AirDown }
    else if i == 11 { AnimState::AirDownDuck }
    else if i == 12 { AnimState::AirUpLeft }
    else if i == 13 { AnimState::AirUpDuckLeft }
    else if i == 14 { AnimState::AirUpRight }
    else if i == 15 { AnimState::AirUpDuckRight }
    else if i == 16 { AnimState::AirDownLeft }
    else if i == 17 { AnimState::AirDownDuckLeft }
    else if i == 18 { AnimState::AirDownRight }
    else if i == 19 { AnimState::AirDownDuckRight }
    else if i == 20 { AnimState::Idle }
    else if i == 21 { AnimState::IdleDuck }
    else { AnimState::Dead }
}

/// Position of an animation in the registry.
pub fn index_of(a: AnimState) -> (r: usize)
    ensures
        r == anim_index(a),
        r < ANIM_COUNT,
        anim_at(r as int) == a,
{
    match a {
        AnimState::RunLeft => 0,
        AnimState::RunRight => 1,
        AnimState::StandLeft => 2,
        AnimState::StandRight => 3,
        AnimState::RunDuckLeft => 4,
        AnimState::RunDuckRight => 5,
        AnimState::StandDuckLeft => 6,
        AnimState::StandDuckRight => 7,
        AnimState::AirUp => 8,
        AnimState::AirUpDuck => 9,
        AnimState::AirDown => 10,
        AnimState::AirDownDuck => 11,
        AnimState::AirUpLeft => 12,
        AnimState::AirUpDuckLeft => 13,
        AnimState::AirUpRight => 14,
        AnimState::AirUpDuckRight => 15,
        AnimState::AirDownLeft => 16,
        AnimState::AirDownDuckLeft => 17,
        AnimState::AirDownRight => 18,
        AnimState::AirDownDuckRight => 19,
        AnimState::Idle => 20,
        AnimState::IdleDuck => 21,
        AnimState::Dead => 22,
    }
}

/// Sprite tiles of each animation, in playing order.
pub open spec fn frame_tiles(a: AnimState) -> Seq<u32> {
    match a {
        AnimState::Idle => seq![0u32, 1, 2],
        AnimState::IdleDuck => seq![4u32, 5, 6],
        AnimState::StandRight => seq![8u32, 9],
        AnimState::StandDuckRight => seq![12u32, 13],
        AnimState::StandLeft => seq![16u32, 17],
        AnimState::StandDuckLeft => seq![20u32, 48],
        AnimState::RunRight => seq![24u32, 25],
        AnimState::RunDuckRight => seq![28u32, 29],
        AnimState::RunLeft => seq![32u32, 33],
        AnimState::RunDuckLeft => seq![36u32, 37],
        AnimState::AirUpRight => seq![40u32, 40],
        AnimState::AirUpDuckRight => seq![42u32, 42],
        AnimState::AirDownRight => seq![44u32, 44],
        AnimState::AirDownDuckRight => seq![46u32, 46],
        AnimState::AirUpLeft => seq![48u32, 48],
        AnimState::AirUpDuckLeft => seq![50u32, 50],
        AnimState::AirDownLeft => seq![52u32, 52],
        AnimState::AirDownDuckLeft => seq![54u32, 54],
        AnimState::AirUp => seq![56u32, 56],
        AnimState::AirUpDuck => seq![58u32, 58],
        AnimState::AirDown => seq![60u32, 60],
        AnimState::AirDownDuck => seq![62u32, 62],
        AnimState::Dead => seq![63u32, 63],
    }
}

/// Number of frames of an animation.
pub open spec fn frame_count(a: AnimState) -> int {
    frame_tiles(a).len() as int
}

/// How long, in microseconds, frame `i` of an animation stays on screen.
pub open spec fn frame_duration(a: AnimState, i: int) -> u64 {
    match a {
        AnimState::Idle | AnimState::IdleDuck => if i == 0 {
            500_000u64
        } else if i == 1 {
            200_000u64
        } else {
            100_000u64
        },
        AnimState::StandRight | AnimState::StandDuckRight | AnimState::StandLeft
        | AnimState::StandDuckLeft | AnimState::Dead => 500_000u64,
        _ => 80_000u64,
    }
}

/// Number of frames of an animation.
pub fn frames_in(a: AnimState) -> (r: usize)
    ensures
        r == frame_count(a),
        2 <= r <= 3,
{
    match a {
        AnimState::Idle | AnimState::IdleDuck => 3,
        _ => 2,
    }
}

/// Sprite tile shown by frame `i` of an animation.
pub fn frame_tile(a: AnimState, i: usize) -> (r: u32)
    requires
        i < frame_count(a),
    ensures
        r == frame_tiles(a)[i as int],
{
    let first: u32 = match a {
        AnimState::Idle => 0,
        AnimState::IdleDuck => 4,
        AnimState::StandRight => 8,
        AnimState::StandDuckRight => 12,
        AnimState::StandLeft => 16,
        AnimState::StandDuckLeft => 20,
        AnimState::RunRight => 24,
        AnimState::RunDuckRight => 28,
        AnimState::RunLeft => 32,
        AnimState::RunDuckLeft => 36,
        AnimState::AirUpRight => 40,
        AnimState::AirUpDuckRight => 42,
        AnimState::AirDownRight => 44,
        AnimState::AirDownDuckRight => 46,
        AnimState::AirUpLeft => 48,
        AnimState::AirUpDuckLeft => 50,
        AnimState::AirDownLeft => 52,
        AnimState::AirDownDuckLeft => 54,
        AnimState::AirUp => 56,
        AnimState::AirUpDuck => 58,
        AnimState::AirDown => 60,
        AnimState::AirDownDuck => 62,
        AnimState::Dead => 63,
    };
    match a {
        AnimState::Idle | AnimState::IdleDuck | AnimState::StandRight | AnimState::StandDuckRight
        | AnimState::StandLeft | AnimState::RunRight | AnimState::RunDuckRight | AnimState::RunLeft
        | AnimState::RunDuckLeft => first + i as u32,
        AnimState::StandDuckLeft => if i == 0 {
            20
        } else {
            48
        },
        _ => first,
    }
}

/// How long, in microseconds, frame `i` of an animation stays on screen.
pub fn frame_duration_us(a: AnimState, i: usize) -> (r: u64)
    ensures
        r == frame_duration(a, i as int),
        r > 0,
{
    match a {
        AnimState::Idle | AnimState::IdleDuck => if i == 0 {
            500_000
        } else if i == 1 {
            200_000
        } else {
            100_000
        },
        AnimState::StandRight | AnimState::StandDuckRight | AnimState::StandLeft
        | AnimState::StandDuckLeft | AnimState::Dead => 500_000,
        _ => 80_000,
    }
}

} // verus!
