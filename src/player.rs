use vstd::prelude::*;

use crate::animation::{animation_for, frame_tiles, select_animation, AnimState, ANIM_COUNT};
use crate::curves::{standard_curves, CurveSet, Curves};
use crate::geometry::{round_spec, round_to_pixel, POSITION_LIMIT};
use crate::motion::{
    active, after_fall, after_horizontal, body_ok, crouch, hazard_hit, jump_starts, outcome_of,
    step_body, step_exec, within, Body, CollisionMark, Input, SPAWN_ID, WARMUP_US,
};
use crate::playback::{
    advanced, entry, finished, fresh, registry_ok, rewound, transitioned, Animations, Playback,
};
use crate::state::{Facing, GameState, JumpState, MoveState};
use crate::tilemap::{Layer, TileGrid, Tilemap};

verus! {

/// What one tick reports: the outcome for the scene and the sounds to play.
#[derive(Clone, Copy, Debug, PartialEq, Eq, Structural)]
pub struct Tick {
    pub outcome: Option<GameState>,
    pub jump_sound: bool,
    pub dead_sound: bool,
}

/// Mathematical view of a player.
pub ghost struct PlayerView {
    pub body: Body,
    /// The animation shown.
    pub animation: AnimState,
    pub playbacks: Seq<Playback>,
    pub curves: CurveSet,
}

/// The animation that a body shows.
pub open spec fn shown(b: Body) -> AnimState {
    select_animation(b.state, b.jump, b.facing, b.duck > 0)
}

/// A player whose parts fit together.
pub open spec fn player_ok(v: PlayerView) -> bool {
    &&& v.curves.wf()
    &&& body_ok(v.body, v.curves)
    &&& registry_ok(v.playbacks)
}

/// Registry contents once the shown animation has played for the frame.
pub open spec fn advanced_registry(v: PlayerView, input: Input) -> Seq<Playback> {
    v.playbacks.update(
        crate::animation::anim_index(v.animation),
        advanced(entry(v.playbacks, v.animation), v.animation, input.frame_us),
    )
}

/// The tick checks whether the shown run animation has ended: the character
/// takes input, no direction key is held and a run animation is shown.
pub open spec fn stop_checked(v: PlayerView, input: Input) -> bool {
    &&& active(v.body, input)
    &&& !input.left && !input.right
    &&& (v.animation == AnimState::RunLeft || v.animation == AnimState::RunRight)
}

/// The shown animation, made to play once, has reached its end.
pub open spec fn run_cycle_done(v: PlayerView, input: Input) -> bool {
    finished(
        Playback { repeating: false, ..entry(advanced_registry(v, input), v.animation) },
        v.animation,
    )
}

/// Registry contents before the change of animation.
pub open spec fn held_registry(v: PlayerView, input: Input) -> Seq<Playback> {
    let s1 = advanced_registry(v, input);
    let a = v.animation;
    if stop_checked(v, input) {
        let s2 = s1.update(
            crate::animation::anim_index(a),
            Playback { repeating: false, ..entry(s1, a) },
        );
        if finished(entry(s2, a), a) {
            s2.update(crate::animation::anim_index(a), rewound(entry(s2, a)))
        } else {
            s2
        }
    } else {
        s1
    }
}

/// The body after one tick.
pub open spec fn next_body(v: PlayerView, input: Input, map: TileGrid) -> Body {
    step_body(v.body, input, map, v.curves, v.animation, run_cycle_done(v, input))
}

/// The registry after one tick.
pub open spec fn next_playbacks(v: PlayerView, input: Input, map: TileGrid) -> Seq<Playback> {
    transitioned(held_registry(v, input), v.animation, shown(next_body(v, input, map)))
}

/// What one tick reports.
pub open spec fn tick_report(v: PlayerView, input: Input, map: TileGrid) -> Tick {
    let run_done = run_cycle_done(v, input);
    Tick {
        outcome: outcome_of(v.body, input),
        jump_sound: active(v.body, input) && jump_starts(
            after_horizontal(v.body, input, map, v.curves, v.animation, run_done),
            input,
            v.curves,
        ),
        dead_sound: active(v.body, input) && hazard_hit(
            crouch(after_fall(v.body, input, map, v.curves, v.animation, run_done), input, map),
            map,
        ),
    }
}

/// The body right after a reset onto the spawn tile at `(x, y)`.
pub open spec fn spawn_body(x: int, y: int) -> Body {
    Body {
        x: x as i64,
        y: y as i64,
        direction: 0,
        state: MoveState::Idle,
        jump: JumpState::Not,
        facing: Facing::Camera,
        duck: 0,
        move_step: 0,
        brake_step: 0,
        air_step: 0,
        jump_up_step: 0,
        jump_down_step: 0,
        warmup_us: WARMUP_US,
        mark: CollisionMark::Clear,
    }
}

/// `b` is the body of a character just put on the first spawn tile of `map`.
pub open spec fn spawned(b: Body, map: TileGrid) -> bool {
    exists|i: int|
        map.is_first_index_of(Layer::Logic, SPAWN_ID, i) && b == spawn_body(
            map.origin_of(i).0,
            map.origin_of(i).1,
        )
}

/// The view of a player after one tick.
pub open spec fn next_view(v: PlayerView, input: Input, map: TileGrid) -> PlayerView {
    PlayerView {
        body: next_body(v, input, map),
        animation: shown(next_body(v, input, map)),
        playbacks: next_playbacks(v, input, map),
        curves: v.curves,
    }
}

/// The controllable character.
pub struct Player {
    body: Body,
    animation_state: AnimState,
    animations: Animations,
    curves: Curves,
}

impl View for Player {
    type V = PlayerView;

    closed spec fn view(&self) -> PlayerView {
        PlayerView {
            body: self.body,
            animation: self.animation_state,
            playbacks: self.animations@,
            curves: self.curves@,
        }
    }
}

impl Player {
    /// A character at the origin with the game's curves, standing, facing the camera.
    pub fn new() -> (r: Player)
        ensures
            player_ok(r@),
            r@.curves == standard_curves(),
            r@.body == (Body { x: 0, y: 0, state: MoveState::Stand, ..spawn_body(0, 0) }),
            r@.animation == AnimState::StandRight,
            r@.playbacks == Seq::new(ANIM_COUNT as nat, |i: int| fresh()),
    {
        Player::with_curves(Curves::standard())
    }

    /// A character at the origin that moves along `curves`.
    pub fn with_curves(curves: Curves) -> (r: Player)
        ensures
            player_ok(r@),
            r@.curves == curves@,
            r@.body == (Body { x: 0, y: 0, state: MoveState::Stand, ..spawn_body(0, 0) }),
            r@.animation == AnimState::StandRight,
            r@.playbacks == Seq::new(ANIM_COUNT as nat, |i: int| fresh()),
    {
        let ok = curves.well_formed();
        Player {
            body: Body {
                x: 0,
                y: 0,
                direction: 0,
                state: MoveState::Stand,
                jump: JumpState::Not,
                facing: Facing::Camera,
                duck: 0,
                move_step: 0,
                brake_step: 0,
                air_step: 0,
                jump_up_step: 0,
                jump_down_step: 0,
                warmup_us: WARMUP_US,
                mark: CollisionMark::Clear,
            },
            animation_state: AnimState::StandRight,
            animations: Animations::new(),
            curves,
        }
    }

    /// Puts the character back on the first spawn tile of the logic layer,
    /// idle, with every counter at 0, the warm-up started over and every
    /// animation rewound.
    pub fn reset(&mut self, tilemap: &Tilemap)
        requires
            player_ok(old(self)@),
            tilemap@.holds_id(Layer::Logic, SPAWN_ID),
        ensures
            player_ok(final(self)@),
            final(self)@.curves == old(self)@.curves,
            spawned(final(self)@.body, tilemap@),
            final(self)@.animation == AnimState::Idle,
            final(self)@.playbacks == old(self)@.playbacks.map_values(|pb: Playback| rewound(pb)),
    {
        if let Some(i) = tilemap.first_index_of(Layer::Logic, SPAWN_ID) {
            let (x, y) = tilemap.tile_origin(i);
            self.body = Body {
                x,
                y,
                direction: 0,
                state: MoveState::Idle,
                jump: JumpState::Not,
                facing: Facing::Camera,
                duck: 0,
                move_step: 0,
                brake_step: 0,
                air_step: 0,
                jump_up_step: 0,
                jump_down_step: 0,
                warmup_us: WARMUP_US,
                mark: CollisionMark::Clear,
            };
        }
        self.animation_state = AnimState::Idle;
        self.animations.reset_all();
    }

    /// Advances the character by one frame of `input` on `tilemap`.
    pub fn update(&mut self, input: &Input, tilemap: &Tilemap) -> (r: Tick)
        requires
            player_ok(old(self)@),
            within(old(self)@.body, POSITION_LIMIT as int),
        ensures
            player_ok(final(self)@),
            final(self)@.curves == old(self)@.curves,
            final(self)@.body == next_body(old(self)@, *input, tilemap@),
            final(self)@.animation == shown(final(self)@.body),
            final(self)@.playbacks == next_playbacks(old(self)@, *input, tilemap@),
            r == tick_report(old(self)@, *input, tilemap@),
    {
        let ok = self.curves.well_formed();
        let ghost v = self@;
        let anim = self.animation_state;
        self.animations.advance(anim, input.frame_us);
        let outcome = if self.body.state == MoveState::Win {
            Some(GameState::Win)
        } else if self.body.state == MoveState::Kill && input.key_pressed {
            Some(GameState::Dead)
        } else {
            None
        };
        let mut run_done = false;
        if self.body.warmup_us <= input.frame_us && self.body.state != MoveState::Win
            && self.body.state != MoveState::Kill && !input.left && !input.right && (anim
            == AnimState::RunLeft || anim == AnimState::RunRight) {
            self.animations.set_repeating(anim, false);
            run_done = self.animations.finish(anim);
            if run_done {
                self.animations.reset(anim);
            }
        }
        assert(self.animations@ == held_registry(v, *input));
        assert(run_done ==> run_cycle_done(v, *input));
        let (body, jump_sound, dead_sound) = step_exec(
            self.body,
            input,
            tilemap,
            &self.curves,
            anim,
            run_done,
        );
        assert(body == next_body(v, *input, tilemap@));
        self.body = body;
        let shown_now = animation_for(
            self.body.state,
            self.body.jump,
            self.body.facing,
            self.body.duck > 0,
        );
        self.animations.transition(anim, shown_now);
        self.animation_state = shown_now;
        Tick { outcome, jump_sound, dead_sound }
    }

    /// Both coordinates are small enough for `update`.
    pub fn in_range(&self) -> (r: bool)
        ensures
            r == within(self@.body, POSITION_LIMIT as int),
    {
        -POSITION_LIMIT <= self.body.x && self.body.x <= POSITION_LIMIT && -POSITION_LIMIT
            <= self.body.y && self.body.y <= POSITION_LIMIT
    }

    /// Position of the sprite, rounded to whole pixels.
    pub fn position(&self) -> (r: (i64, i64))
        ensures
            r.0 == round_spec(self@.body.x as int),
            r.1 == round_spec(self@.body.y as int),
    {
        (round_to_pixel(self.body.x), round_to_pixel(self.body.y))
    }

    /// The whole simulated state.
    pub fn body(&self) -> (r: Body)
        ensures
            r == self@.body,
    {
        self.body
    }

    /// The curves the character moves along.
    pub fn curves(&self) -> (r: &Curves)
        ensures
            r@ == self@.curves,
    {
        &self.curves
    }

    /// The animation that the current state calls for.
    pub fn get_animation_state(&self) -> (r: AnimState)
        ensures
            r == shown(self@.body),
    {
        animation_for(self.body.state, self.body.jump, self.body.facing, self.body.duck > 0)
    }

    /// The animation shown since the last tick.
    pub fn current_animation(&self) -> (r: AnimState)
        ensures
            r == self@.animation,
    {
        self.animation_state
    }

    /// The playback of animation `a`.
    pub fn playback(&self, a: AnimState) -> (r: Playback)
        requires
            player_ok(self@),
        ensures
            r == entry(self@.playbacks, a),
    {
        self.animations.playback(a)
    }

    /// Sprite tile to draw: the frame reached by the animation that the
    /// current state calls for.
    pub fn sprite_tile(&self) -> (r: u32)
        requires
            player_ok(self@),
        ensures
            r == frame_tiles(shown(self@.body))[entry(self@.playbacks, shown(self@.body)).frame as int],
    {
        self.animations.current_tile(self.get_animation_state())
    }

    /// Whether the character crouches.
    pub fn is_crouched(&self) -> (r: bool)
        ensures
            r == (self@.body.duck > 0),
    {
        self.body.duck > 0
    }
}

} // verus!
