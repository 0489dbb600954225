//! The two paddles.

use vstd::prelude::*;
use crate::color::Color;
use crate::MAX_COORDINATE;
use crate::MAX_DIMENSION;
use crate::SCALE;

verus! {

/// Width of a paddle, in subunits (5 world units).
pub const PLAYER_WIDTH: i64 = 5 * SCALE;

/// Height of a paddle, in subunits (60 world units).
pub const PLAYER_HEIGHT: i64 = 60 * SCALE;

/// Distance a paddle travels on one movement command (5 world units).
pub const PLAYER_STEP: i64 = 5 * SCALE;

/// Home x-position of the right paddle, paddle number 1 (250 world units).
pub const PLAYER1_HOME_X: i64 = 250 * SCALE;

/// Home x-position of the left paddle, paddle number 2.
pub const PLAYER2_HOME_X: i64 = -250 * SCALE;

/// Mathematical image of a [`Player`]: the same fields over unbounded
/// integers.
pub ghost struct PlayerView {
    pub number: u8,
    pub position_y: int,
    pub position_x: int,
    pub width: int,
    pub height: int,
    pub color: Color,
    pub score: int,
}

/// A paddle: an axis-aligned rectangle that moves vertically in fixed steps,
/// plus the score counter of the player steering it.
///
/// `(position_x, position_y)` is the top-left corner. `number` is 1 for the
/// right-hand paddle and 2 for the left-hand one; it decides where
/// [`Player::reset_position`] puts the paddle back. The paddle itself does no
/// bounds checking: the input dispatcher keeps it inside the legal band
/// before asking it to move.
pub struct Player {
    pub number: u8,
    pub position_y: i64,
    pub position_x: i64,
    pub width: i64,
    pub height: i64,
    pub color: Color,
    pub score: u32,
}

impl View for Player {
    type V = PlayerView;

    open spec fn view(&self) -> PlayerView {
        PlayerView {
            number: self.number,
            position_y: self.position_y as int,
            position_x: self.position_x as int,
            width: self.width as int,
            height: self.height as int,
            color: self.color,
            score: self.score as int,
        }
    }
}

impl PlayerView {
    /// The x-coordinate of the paddle's right edge.
    pub open spec fn x2(self) -> int {
        self.position_x + self.width
    }

    /// The y-coordinate of the paddle's bottom edge.
    pub open spec fn y2(self) -> int {
        self.position_y + self.height
    }

    /// A paddle whose extent is positive and bounded.
    pub open spec fn wf(self) -> bool {
        &&& 0 < self.width <= MAX_DIMENSION
        &&& 0 < self.height <= MAX_DIMENSION
    }

    /// The paddle's coordinates leave room for one more movement step.
    pub open spec fn in_bounds(self) -> bool {
        &&& -MAX_COORDINATE <= self.position_x <= MAX_COORDINATE
        &&& -MAX_COORDINATE <= self.position_y <= MAX_COORDINATE
    }

    /// Where [`Player::reset_position`] puts a paddle numbered `number`:
    /// the right paddle sits at its home seat on the right, every other at
    /// the one on the left, and the paddle is re-centered vertically.
    pub open spec fn home(self) -> PlayerView {
        PlayerView {
            position_x: if self.number == 1 { PLAYER1_HOME_X as int } else { PLAYER2_HOME_X as int },
            position_y: -(self.height / 2),
            ..self
        }
    }

    /// The paddle that [`Player::new`] builds: the standard size and color
    /// at the given horizontal seat, vertically centered, score zero.
    pub open spec fn standard(position_x: int, number: u8) -> PlayerView {
        PlayerView {
            number,
            position_y: -(PLAYER_HEIGHT / 2),
            position_x,
            width: PLAYER_WIDTH as int,
            height: PLAYER_HEIGHT as int,
            color: Color { red: 255, green: 255, blue: 255, alpha: 255 },
            score: 0,
        }
    }
}

impl Player {
    /// Builds a paddle of the standard size and color at horizontal position
    /// `position_x`, vertically centered, with a zero score.
    pub fn new(position_x: i64, number: u8) -> (p: Player)
        ensures
            p@ == PlayerView::standard(position_x as int, number),
    {
        let position_y: i64 = 0 - PLAYER_HEIGHT / 2;
        let width: i64 = PLAYER_WIDTH;
        let height: i64 = PLAYER_HEIGHT;
        let color: Color = Color::white();
        let score: u32 = 0;

        Player { position_y, position_x, width, height, color, score, number }
    }

    /// Awards this paddle's player one point.
    pub fn make_point(&mut self)
        requires
            old(self).score < u32::MAX,
        ensures
            final(self)@ == (PlayerView { score: old(self)@.score + 1, ..old(self)@ }),
    {
        self.score = self.score + 1;
    }

    /// Moves the paddle one step up (toward smaller `y`).
    pub fn move_up(&mut self)
        requires
            old(self)@.in_bounds(),
        ensures
            final(self)@ == (PlayerView { position_y: old(self)@.position_y - PLAYER_STEP, ..old(self)@ }),
    {
        self.position_y = self.position_y - PLAYER_STEP;
    }

    /// Moves the paddle one step down (toward larger `y`).
    pub fn move_down(&mut self)
        requires
            old(self)@.in_bounds(),
        ensures
            final(self)@ == (PlayerView { position_y: old(self)@.position_y + PLAYER_STEP, ..old(self)@ }),
    {
        self.position_y = self.position_y + PLAYER_STEP;
    }

    /// Puts the paddle back at its home position for a new round: the
    /// horizontal seat its number assigns it, vertically centered.
    pub fn reset_position(&mut self)
        requires
            old(self)@.wf(),
        ensures
            final(self)@ == old(self)@.home(),
    {
        self.position_x = if self.number == 1 { PLAYER1_HOME_X } else { PLAYER2_HOME_X };
        self.position_y = 0 - self.height / 2;
    }

    /// Sets the score back to zero for a new round.
    pub fn reset_score(&mut self)
        ensures
            final(self)@ == (PlayerView { score: 0, ..old(self)@ }),
    {
        self.score = 0;
    }
}

} // verus!
