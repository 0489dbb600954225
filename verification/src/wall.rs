//! Static boundary walls of the arena.

use vstd::prelude::*;
use crate::color::Color;
use crate::MAX_COORDINATE;
use crate::MAX_DIMENSION;

verus! {

/// Mathematical image of a [`Wall`]: the same fields over unbounded
/// integers.
pub ghost struct WallView {
    pub position_y: int,
    pub position_x: int,
    pub width: int,
    pub height: int,
    pub rotation: int,
    pub color: Color,
}

/// An immutable axis-aligned rectangle that the ball bounces off.
///
/// `(position_x, position_y)` is the top-left corner; `rotation` is a purely
/// descriptive tag in scaled degrees (0 for the horizontal bars, 90 degrees
/// for the vertical ones) and plays no part in collision tests, which use the
/// rectangle edges alone. All lengths are in fixed-point subunits.
#[derive(Clone, Copy, Debug, PartialEq, Eq, Structural)]
pub struct Wall {
    pub position_y: i64,
    pub position_x: i64,
    pub width: i64,
    pub height: i64,
    pub rotation: i64,
    pub color: Color,
}

impl View for Wall {
    type V = WallView;

    open spec fn view(&self) -> WallView {
        WallView {
            position_y: self.position_y as int,
            position_x: self.position_x as int,
            width: self.width as int,
            height: self.height as int,
            rotation: self.rotation as int,
            color: self.color,
        }
    }
}

impl WallView {
    /// The x-coordinate of the wall's right edge.
    pub open spec fn x2(self) -> int {
        self.position_x + self.width
    }

    /// The y-coordinate of the wall's bottom edge.
    pub open spec fn y2(self) -> int {
        self.position_y + self.height
    }

    /// A wall whose extent is positive and whose coordinates leave room for
    /// edge arithmetic.
    pub open spec fn wf(self) -> bool {
        &&& 0 < self.width <= MAX_DIMENSION
        &&& 0 < self.height <= MAX_DIMENSION
        &&& -MAX_COORDINATE <= self.position_x <= MAX_COORDINATE
        &&& -MAX_COORDINATE <= self.position_y <= MAX_COORDINATE
    }
}

impl Wall {
    /// Builds a wall at the given place with the standard wall color.
    pub fn new(width: i64, height: i64, position_x: i64, position_y: i64, rotation: i64) -> (w: Wall)
        ensures
            w@ == (WallView {
                position_y: position_y as int,
                position_x: position_x as int,
                width: width as int,
                height: height as int,
                rotation: rotation as int,
                color: Color { red: 255, green: 255, blue: 255, alpha: 255 },
            }),
    {
        let color = Color::white();

        Wall { color, width, height, position_x, position_y, rotation }
    }
}

} // verus!
