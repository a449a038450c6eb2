use vstd::prelude::*;

use crate::animation::{AnimState, ANIM_COUNT};
use crate::curves::standard_curves;
use crate::geometry::POSITION_LIMIT;
use crate::motion::{within, Input, SPAWN_ID};
use crate::playback::{fresh, rewound, Playback};
use crate::player::{next_view, player_ok, spawned, tick_report, Player, PlayerView, Tick};
use crate::state::GameState;
use crate::tilemap::{Layer, TileGrid, Tilemap};

verus! {

/// The screen the program shows.
#[derive(Clone, Copy, Debug, PartialEq, Eq, Structural)]
pub enum MainState {
    Title,
    Story,
    Game,
    Exit,
    Run,
    End,
}

/// Mathematical view of the game scene.
pub ghost struct GameView {
    pub player: PlayerView,
    pub map: TileGrid,
    pub game_state: GameState,
    pub last_tick: Tick,
}

/// A scene whose map has a spawn tile and whose player fits together.
pub open spec fn game_ok(g: GameView) -> bool {
    player_ok(g.player) && g.map.holds_id(Layer::Logic, SPAWN_ID)
}

/// `p` is player `before` put back on the spawn tile of `map`.
pub open spec fn respawned(p: PlayerView, before: PlayerView, map: TileGrid) -> bool {
    &&& spawned(p.body, map)
    &&& p.animation == AnimState::Idle
    &&& p.playbacks == before.playbacks.map_values(|pb: Playback| rewound(pb))
    &&& p.curves == before.curves
}

/// The game scene: the character on its map.
pub struct Game {
    player: Player,
    game_tilemap: Tilemap,
    game_state: GameState,
    last_tick: Tick,
}

impl View for Game {
    type V = GameView;

    closed spec fn view(&self) -> GameView {
        GameView {
            player: self.player@,
            map: self.game_tilemap@,
            game_state: self.game_state,
            last_tick: self.last_tick,
        }
    }
}

impl Game {
    /// The scene on `tilemap` with the character on its spawn tile; `None`
    /// when the logic layer has no spawn tile.
    pub fn init(tilemap: Tilemap) -> (r: Option<Game>)
        ensures
            r is Some <==> tilemap@.holds_id(Layer::Logic, SPAWN_ID),
            r matches Some(g) ==> {
                &&& game_ok(g@)
                &&& g@.map == tilemap@
                &&& g@.game_state == GameState::Game
                &&& g@.player.curves == standard_curves()
                &&& spawned(g@.player.body, tilemap@)
                &&& g@.player.animation == AnimState::Idle
                &&& g@.player.playbacks == Seq::new(ANIM_COUNT as nat, |i: int| fresh())
                &&& g@.last_tick == (Tick { outcome: None, jump_sound: false, dead_sound: false })
            },
    {
        if tilemap.first_index_of(Layer::Logic, SPAWN_ID).is_none() {
            return None;
        }
        let mut player = Player::new();
        player.reset(&tilemap);
        assert(player@.playbacks =~= Seq::new(ANIM_COUNT as nat, |i: int| fresh()));
        Some(
            Game {
                player,
                game_tilemap: tilemap,
                game_state: GameState::Game,
                last_tick: Tick { outcome: None, jump_sound: false, dead_sound: false },
            },
        )
    }

    /// Starts the scene over: the character goes back to the spawn tile.
    pub fn reset(&mut self)
        requires
            game_ok(old(self)@),
        ensures
            game_ok(final(self)@),
            final(self)@.map == old(self)@.map,
            final(self)@.game_state == GameState::Game,
            final(self)@.last_tick == old(self)@.last_tick,
            respawned(final(self)@.player, old(self)@.player, old(self)@.map),
    {
        self.game_state = GameState::Game;
        self.player.reset(&self.game_tilemap);
    }

    /// Runs one frame: the character ticks; on death it goes back to the
    /// spawn tile, on a win the end screen comes next. A character that has
    /// left the range of positions a tick accepts is put back on the spawn tile.
    pub fn run(&mut self, input: &Input) -> (r: Option<MainState>)
        requires
            game_ok(old(self)@),
        ensures
            game_ok(final(self)@),
            final(self)@.map == old(self)@.map,
            final(self)@.game_state == old(self)@.game_state,
            !within(old(self)@.player.body, POSITION_LIMIT as int) ==> {
                &&& r is None
                &&& respawned(final(self)@.player, old(self)@.player, old(self)@.map)
                &&& final(self)@.last_tick == old(self)@.last_tick
            },
            within(old(self)@.player.body, POSITION_LIMIT as int) ==> {
                let t = tick_report(old(self)@.player, *input, old(self)@.map);
                let after = next_view(old(self)@.player, *input, old(self)@.map);
                &&& final(self)@.last_tick == t
                &&& r == if t.outcome == Some(GameState::Win) {
                    Some(MainState::End)
                } else {
                    None
                }
                &&& t.outcome == Some(GameState::Dead) ==> respawned(
                    final(self)@.player,
                    after,
                    old(self)@.map,
                )
                &&& t.outcome != Some(GameState::Dead) ==> final(self)@.player == after
            },
    {
        if !self.player.in_range() {
            self.player.reset(&self.game_tilemap);
            return None;
        }
        let tick = self.player.update(input, &self.game_tilemap);
        self.last_tick = tick;
        match tick.outcome {
            Some(GameState::Win) => Some(MainState::End),
            Some(GameState::Dead) => {
                self.player.reset(&self.game_tilemap);
                None
            },
            Some(gs) => {
                self.game_state = gs;
                None
            },
            None => None,
        }
    }

    /// What the last frame reported.
    pub fn last_tick(&self) -> (r: Tick)
        ensures
            r == self@.last_tick,
    {
        self.last_tick
    }

    /// The character.
    pub fn player(&self) -> (r: &Player)
        ensures
            r@ == self@.player,
    {
        &self.player
    }

    /// The map.
    pub fn tilemap(&self) -> (r: &Tilemap)
        ensures
            r@ == self@.map,
    {
        &self.game_tilemap
    }

    /// The state of the scene.
    pub fn game_state(&self) -> (r: GameState)
        ensures
            r == self@.game_state,
    {
        self.game_state
    }
}

/// The title screen's answer to a frame: any key starts the game, and a
/// quit key among the keys leaves the program.
pub fn process_action(key_pressed: bool, quit_pressed: bool) -> (r: Option<MainState>)
    ensures
        r == if !key_pressed {
            None
        } else if quit_pressed {
            Some(MainState::Exit)
        } else {
            Some(MainState::Game)
        },
{
    if key_pressed {
        if quit_pressed {
            Some(MainState::Exit)
        } else {
            Some(MainState::Game)
        }
    } else {
        None
    }
}

/// The end screen's answer to a frame: any key returns to the title.
pub fn end_action(key_pressed: bool) -> (r: Option<MainState>)
    ensures
        r == if key_pressed {
            Some(MainState::Title)
        } else {
            None
        },
{
    if key_pressed {
        Some(MainState::Title)
    } else {
        None
    }
}

} // verus!
