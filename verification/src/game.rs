//! The top-level state machine: field, two paddles, ball, menu, and the
//! per-tick update and key dispatch that drive a round.
//!
//! Policy choices this crate fixes, where such games commonly differ: the
//! game starts paused until a start key arrives; a paddle contact awards
//! the point to the player whose rectangle registered the collision; and a
//! round loss ends the round, not the game: the update resets both paddles'
//! positions and scores and the ball's position and play goes on. The
//! [`Game::lose`] transition to the terminal [`GameState::Lost`] state
//! remains available to hosts that prefer to stop instead.

use vstd::prelude::*;
use crate::ball::Ball;
use crate::ball::BallView;
use crate::ball::ANGLE_LIMIT;
use crate::field::Field;
use crate::field::FieldView;
use crate::menu::Menu;
use crate::menu::MenuView;
use crate::player::Player;
use crate::player::PlayerView;
use crate::player::PLAYER_STEP;
use crate::player::PLAYER1_HOME_X;
use crate::player::PLAYER2_HOME_X;
use crate::wall::Wall;
use crate::SCALE;

verus! {

/// Margin between the window edge and the walls (15 world units).
pub const WINDOW_MARGIN: i64 = 15 * SCALE;

/// Width of the arena window (600 world units).
pub const WINDOW_WIDTH: i64 = 600 * SCALE;

/// Height of the arena window (400 world units).
pub const WINDOW_HEIGHT: i64 = 400 * SCALE;

/// Bound of the vertical band a paddle may be steered in (175 world
/// units): a movement command is honored only while the paddle's top corner
/// lies strictly inside the band.
pub const PLAYER_Y_LIMIT: i64 = 175 * SCALE;

/// The three phases of the game; exactly one holds at any time.
#[derive(Clone, Copy, Debug, PartialEq, Eq, Structural)]
pub enum GameState {
    Playing,
    Paused,
    Lost,
}

/// The logical keys the game reacts to; the host maps raw input to these
/// and drops every other key, which by contract has no effect.
#[derive(Clone, Copy, Debug, PartialEq, Eq, Structural)]
pub enum GameKey {
    Up,
    Down,
    W,
    S,
    Space,
    R,
    K,
}

/// Mathematical image of a [`Game`].
pub ghost struct GameView {
    pub player1: PlayerView,
    pub player2: PlayerView,
    pub ball: BallView,
    pub field: FieldView,
    pub state: GameState,
    pub menu: MenuView,
}

/// The whole game: one field, the right paddle (`player1`) and the left
/// paddle (`player2`), one ball, one menu, and the current phase.
pub struct Game {
    pub player1: Player,
    pub player2: Player,
    pub ball: Ball,
    pub field: Field,
    pub state: GameState,
    pub menu: Menu,
}

impl View for Game {
    type V = GameView;

    open spec fn view(&self) -> GameView {
        GameView {
            player1: self.player1@,
            player2: self.player2@,
            ball: self.ball@,
            field: self.field@,
            state: self.state,
            menu: self.menu@,
        }
    }
}

impl GameView {
    /// Every component is well-formed.
    pub open spec fn wf(self) -> bool {
        &&& self.ball.wf()
        &&& self.player1.wf()
        &&& self.player2.wf()
        &&& self.field.wf()
        &&& self.menu.wf()
    }

    /// Coordinates leave room for one more step.
    pub open spec fn in_bounds(self) -> bool {
        &&& self.ball.in_bounds()
        &&& self.player1.in_bounds()
        &&& self.player2.in_bounds()
    }

    /// Both scores leave room for one more point.
    pub open spec fn can_score(self) -> bool {
        &&& self.player1.score < u32::MAX
        &&& self.player2.score < u32::MAX
    }

    /// The simulation is running.
    pub open spec fn playing(self) -> bool {
        self.state == GameState::Playing
    }

    /// The ball has fully left the strip between the paddles' outer edges:
    /// its left edge lies beyond the right paddle's right edge, or its
    /// right edge beyond the left paddle's left edge.
    pub open spec fn lost(self) -> bool {
        ||| self.ball.position_x > self.player1.x2()
        ||| self.ball.x2() < self.player2.position_x
    }

    /// A fresh round: the ball back at the center, both paddles at their
    /// home seats with zero scores, and play running. Speeds, angle, field
    /// and menu stay as they are.
    pub open spec fn reset_round(self) -> GameView {
        GameView {
            ball: self.ball.centered(),
            player1: PlayerView { score: 0, ..self.player1.home() },
            player2: PlayerView { score: 0, ..self.player2.home() },
            state: GameState::Playing,
            ..self
        }
    }

    /// The same game with the ball's launch angle replaced.
    pub open spec fn with_angle(self, angle: int) -> GameView {
        GameView { ball: BallView { angle, ..self.ball }, ..self }
    }

    /// One collision pass of a playing tick, in deterministic order: the
    /// ball is checked against the right paddle, then the left paddle, then
    /// the four walls in construction order (top, right, bottom, left).
    /// A paddle whose rectangle registers a touch scores one point; wall
    /// touches only reflect. Positions do not change here.
    pub open spec fn after_collisions(self) -> GameView {
        let b0 = self.ball;
        let hit1 = b0.touches(self.player1.position_x, self.player1.x2(), self.player1.position_y, self.player1.y2());
        let b1 = b0.bounced(self.player1.position_x, self.player1.x2(), self.player1.position_y, self.player1.y2());
        let hit2 = b1.touches(self.player2.position_x, self.player2.x2(), self.player2.position_y, self.player2.y2());
        let b2 = b1.bounced(self.player2.position_x, self.player2.x2(), self.player2.position_y, self.player2.y2());
        let b3 = b2.bounced(self.field.top.position_x, self.field.top.x2(), self.field.top.position_y, self.field.top.y2());
        let b4 = b3.bounced(self.field.right.position_x, self.field.right.x2(), self.field.right.position_y, self.field.right.y2());
        let b5 = b4.bounced(self.field.bottom.position_x, self.field.bottom.x2(), self.field.bottom.position_y, self.field.bottom.y2());
        let b6 = b5.bounced(self.field.left.position_x, self.field.left.x2(), self.field.left.position_y, self.field.left.y2());
        GameView {
            ball: b6,
            player1: if hit1 { PlayerView { score: self.player1.score + 1, ..self.player1 } } else { self.player1 },
            player2: if hit2 { PlayerView { score: self.player2.score + 1, ..self.player2 } } else { self.player2 },
            ..self
        }
    }

    /// One full tick. Outside of play nothing changes. During play: the
    /// collision pass runs first, then the round-loss test on the current
    /// positions ends the round if the ball is out, and last the ball
    /// advances by its per-axis speed, unconditionally.
    pub open spec fn updated(self) -> GameView {
        if self.state == GameState::Playing {
            let g1 = self.after_collisions();
            let g2 = if g1.lost() { g1.reset_round() } else { g1 };
            GameView { ball: g2.ball.moved(), ..g2 }
        } else {
            self
        }
    }

    /// The game after one key-down event, given the launch angle `angle`
    /// that any angle-drawing key stored; keys that draw no angle ignore
    /// that parameter.
    ///
    /// While playing, Up and Down steer the right paddle and W and S the
    /// left one, each honored only while the paddle's top corner lies
    /// strictly inside the legal band, and Space pauses. While not playing,
    /// Up and Down move the menu selection with wraparound and Space starts
    /// play with a fresh launch angle. R forces a fresh round and K redraws
    /// the launch angle, each in every state.
    pub open spec fn after_key(self, key: GameKey, angle: int) -> GameView {
        match key {
            GameKey::Up => if self.playing() {
                if self.player1.position_y > -PLAYER_Y_LIMIT {
                    GameView {
                        player1: PlayerView { position_y: self.player1.position_y - PLAYER_STEP, ..self.player1 },
                        ..self
                    }
                } else {
                    self
                }
            } else {
                GameView { menu: MenuView { selected_item: self.menu.selected_up(), ..self.menu }, ..self }
            },
            GameKey::Down => if self.playing() {
                if self.player1.position_y < PLAYER_Y_LIMIT {
                    GameView {
                        player1: PlayerView { position_y: self.player1.position_y + PLAYER_STEP, ..self.player1 },
                        ..self
                    }
                } else {
                    self
                }
            } else {
                GameView { menu: MenuView { selected_item: self.menu.selected_down(), ..self.menu }, ..self }
            },
            GameKey::W => if self.playing() && self.player2.position_y > -PLAYER_Y_LIMIT {
                GameView {
                    player2: PlayerView { position_y: self.player2.position_y - PLAYER_STEP, ..self.player2 },
                    ..self
                }
            } else {
                self
            },
            GameKey::S => if self.playing() && self.player2.position_y < PLAYER_Y_LIMIT {
                GameView {
                    player2: PlayerView { position_y: self.player2.position_y + PLAYER_STEP, ..self.player2 },
                    ..self
                }
            } else {
                self
            },
            GameKey::Space => if self.playing() {
                GameView { state: GameState::Paused, ..self }
            } else {
                GameView { state: GameState::Playing, ..self.with_angle(angle) }
            },
            GameKey::R => self.reset_round(),
            GameKey::K => self.with_angle(angle),
        }
    }

    /// The game that [`Game::new`] builds, carrying the given launch
    /// angle: standard paddles at their home seats, the standard ball and
    /// field and menu, paused until a start key arrives.
    pub open spec fn initial(angle: int) -> GameView {
        GameView {
            player1: PlayerView::standard(PLAYER1_HOME_X as int, 1),
            player2: PlayerView::standard(PLAYER2_HOME_X as int, 2),
            ball: BallView::standard(angle),
            field: FieldView::standard(WINDOW_WIDTH as int, WINDOW_HEIGHT as int, WINDOW_MARGIN as int),
            state: GameState::Paused,
            menu: MenuView::standard(),
        }
    }
}

impl Game {
    /// Builds the whole game in its initial, paused configuration with a
    /// freshly drawn launch angle.
    pub fn new() -> (g: Game)
        ensures
            g@ == GameView::initial(g@.ball.angle),
            -ANGLE_LIMIT <= g@.ball.angle < ANGLE_LIMIT,
            g@.wf(),
            g@.in_bounds(),
    {
        let player1: Player = Player::new(PLAYER1_HOME_X, 1);
        let player2: Player = Player::new(PLAYER2_HOME_X, 2);

        let ball: Ball = Ball::new();

        let field: Field = Field::new(WINDOW_WIDTH, WINDOW_HEIGHT, WINDOW_MARGIN);

        let menu: Menu = Menu::new();

        let state: GameState = GameState::Paused;

        Game { ball, field, player1, player2, state, menu }
    }

    /// Moves the state machine to the given phase.
    pub fn change_game_state(&mut self, state: GameState)
        ensures
            final(self)@ == (GameView { state: state, ..old(self)@ }),
    {
        self.state = state;
    }

    /// Whether the simulation is running.
    pub fn is_playing(&self) -> (r: bool)
        ensures
            r == self@.playing(),
    {
        match self.state {
            GameState::Playing => true,
            _ => false,
        }
    }

    /// Starts (or resumes) play from any state and redraws the ball's
    /// launch angle.
    pub fn start(&mut self)
        ensures
            final(self)@ == (GameView {
                state: GameState::Playing,
                ..old(self)@.with_angle(final(self)@.ball.angle)
            }),
            -ANGLE_LIMIT <= final(self)@.ball.angle < ANGLE_LIMIT,
    {
        self.change_game_state(GameState::Playing);
        self.ball.angle = Ball::randomize_angle();
    }

    /// Pauses a running game; outside of play this does nothing.
    pub fn pause(&mut self)
        ensures
            final(self)@ == if old(self)@.playing() {
                GameView { state: GameState::Paused, ..old(self)@ }
            } else {
                old(self)@
            },
    {
        if self.is_playing() {
            self.change_game_state(GameState::Paused);
        }
    }

    /// Moves to the terminal lost state, from any state.
    pub fn lose(&mut self)
        ensures
            final(self)@ == (GameView { state: GameState::Lost, ..old(self)@ }),
    {
        self.change_game_state(GameState::Lost);
    }

    /// Starts a fresh round: ball centered, paddles at their home seats,
    /// scores cleared, play running.
    pub fn init(&mut self)
        requires
            old(self)@.wf(),
        ensures
            final(self)@ == old(self)@.reset_round(),
    {
        self.ball.reset_position();
        self.player1.reset_position();
        self.player1.reset_score();
        self.player2.reset_position();
        self.player2.reset_score();
        self.change_game_state(GameState::Playing);
    }

    /// Whether the ball has fully left the strip between the paddles'
    /// outer edges and the round is over.
    pub fn check_lose_game(&self) -> (r: bool)
        requires
            self@.wf(),
            self@.in_bounds(),
        ensures
            r == self@.lost(),
    {
        if self.ball.position_x > self.player1.position_x + self.player1.width
            || self.ball.position_x + self.ball.width < self.player2.position_x {
            return true;
        }

        false
    }

    /// One simulation tick. Outside of play this mutates nothing. During
    /// play it runs the collision pass against paddles and walls (scoring
    /// for a touched paddle), ends the round if the ball is out, and then
    /// advances the ball by its per-axis speed.
    pub fn update(&mut self)
        requires
            old(self)@.wf(),
            old(self)@.in_bounds(),
            old(self)@.can_score(),
        ensures
            final(self)@ == old(self)@.updated(),
            !old(self)@.playing() ==> final(self)@ == old(self)@,
            final(self)@.wf(),
    {
        match self.state {
            GameState::Playing => {
                let player1_collision: bool = self.ball.check_collision(
                    self.player1.position_x,
                    self.player1.position_x + self.player1.width,
                    self.player1.position_y,
                    self.player1.position_y + self.player1.height,
                );

                if player1_collision {
                    self.player1.make_point();
                }

                let player2_collision: bool = self.ball.check_collision(
                    self.player2.position_x,
                    self.player2.position_x + self.player2.width,
                    self.player2.position_y,
                    self.player2.position_y + self.player2.height,
                );

                if player2_collision {
                    self.player2.make_point();
                }

                let wall0: Wall = self.field.external_walls[0];
                self.ball.check_collision(
                    wall0.position_x,
                    wall0.position_x + wall0.width,
                    wall0.position_y,
                    wall0.position_y + wall0.height,
                );

                let wall1: Wall = self.field.external_walls[1];
                self.ball.check_collision(
                    wall1.position_x,
                    wall1.position_x + wall1.width,
                    wall1.position_y,
                    wall1.position_y + wall1.height,
                );

                let wall2: Wall = self.field.external_walls[2];
                self.ball.check_collision(
                    wall2.position_x,
                    wall2.position_x + wall2.width,
                    wall2.position_y,
                    wall2.position_y + wall2.height,
                );

                let wall3: Wall = self.field.external_walls[3];
                self.ball.check_collision(
                    wall3.position_x,
                    wall3.position_x + wall3.width,
                    wall3.position_y,
                    wall3.position_y + wall3.height,
                );

                let game_lose: bool = self.check_lose_game();

                if game_lose {
                    self.init();
                }

                self.ball.position_y = self.ball.position_y + self.ball.acceleration_y;
                self.ball.position_x = self.ball.position_x + self.ball.acceleration_x;
            }
            _ => {
            }
        }
    }

    /// Dispatches one key-down event as [`GameView::after_key`] describes.
    pub fn key_pressed(&mut self, key: GameKey)
        requires
            old(self)@.wf(),
            old(self)@.in_bounds(),
        ensures
            final(self)@ == old(self)@.after_key(key, final(self)@.ball.angle),
            (key == GameKey::K || (key == GameKey::Space && !old(self)@.playing()))
                ==> -ANGLE_LIMIT <= final(self)@.ball.angle < ANGLE_LIMIT,
            final(self)@.wf(),
    {
        match key {
            GameKey::Up => {
                if self.is_playing() {
                    if self.player1.position_y > 0 - PLAYER_Y_LIMIT {
                        self.player1.move_up();
                    }
                } else {
                    if self.menu.selected_item == 0 {
                        self.menu.selected_item = 2;
                    } else {
                        self.menu.selected_item = self.menu.selected_item - 1;
                    }
                }
            }
            GameKey::Down => {
                if self.is_playing() {
                    if self.player1.position_y < PLAYER_Y_LIMIT {
                        self.player1.move_down();
                    }
                } else {
                    if self.menu.selected_item == 2 {
                        self.menu.selected_item = 0;
                    } else {
                        self.menu.selected_item = self.menu.selected_item + 1;
                    }
                }
            }
            GameKey::W => {
                if self.is_playing() {
                    if self.player2.position_y > 0 - PLAYER_Y_LIMIT {
                        self.player2.move_up();
                    }
                }
            }
            GameKey::S => {
                if self.is_playing() {
                    if self.player2.position_y < PLAYER_Y_LIMIT {
                        self.player2.move_down();
                    }
                }
            }
            GameKey::Space => {
                if self.is_playing() {
                    self.pause();
                } else {
                    self.start();
                }
            }
            GameKey::R => {
                self.init();
            }
            GameKey::K => {
                self.ball.angle = Ball::randomize_angle();
            }
        }
    }
}

} // verus!
