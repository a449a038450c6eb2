use vstd::prelude::*;

verus! {

/// What the character is doing; drives physics gating and the animation.
#[derive(Clone, Copy, Debug, PartialEq, Eq, Structural)]
pub enum MoveState {
    Slide,
    Idle,
    Run,
    Air,
    Kill,
    Win,
    Stand,
}

/// Phase of a jump: `BuildUp` rises while the key is held, `Up` coasts,
/// `Down` falls and `Not` is on the ground.
#[derive(Clone, Copy, Debug, PartialEq, Eq, Structural)]
pub enum JumpState {
    BuildUp,
    Not,
    Up,
    Down,
}

/// Where the character looks; `Camera` is the neutral front view.
#[derive(Clone, Copy, Debug, PartialEq, Eq, Structural)]
pub enum Facing {
    Left,
    Right,
    Camera,
}

} // verus!

verus! {

/// What a tick reports to the scene that owns the character.
#[derive(Clone, Copy, Debug, PartialEq, Eq, Structural)]
pub enum GameState {
    Win,
    Game,
    Dead,
}

} // verus!
