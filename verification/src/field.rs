//! The arena: four boundary walls and a background color.

use vstd::prelude::*;
use crate::color::Color;
use crate::wall::Wall;
use crate::wall::WallView;
use crate::MAX_DIMENSION;
use crate::SCALE;

verus! {

/// Thickness of every boundary wall, in subunits (5 world units).
pub const WALL_THICKNESS: i64 = 5 * SCALE;

/// Mathematical image of a [`Field`]: the four walls in construction order
/// (top, right, bottom, left) and the background color.
pub ghost struct FieldView {
    pub top: WallView,
    pub right: WallView,
    pub bottom: WallView,
    pub left: WallView,
    pub background_color: Color,
}

/// The playing field: a closed rectangular boundary of four immutable
/// walls, inset from the window edges by a margin, over a black background.
///
/// The walls stand in construction order: index 0 the top bar, 1 the right
/// bar, 2 the bottom bar, 3 the left bar. Nothing here ever mutates after
/// construction.
pub struct Field {
    pub external_walls: [Wall; 4],
    pub background_color: Color,
}

impl View for Field {
    type V = FieldView;

    open spec fn view(&self) -> FieldView {
        FieldView {
            top: self.external_walls@[0]@,
            right: self.external_walls@[1]@,
            bottom: self.external_walls@[2]@,
            left: self.external_walls@[3]@,
            background_color: self.background_color,
        }
    }
}

impl FieldView {
    /// All four walls are well-formed.
    pub open spec fn wf(self) -> bool {
        &&& self.top.wf()
        &&& self.right.wf()
        &&& self.bottom.wf()
        &&& self.left.wf()
    }

    /// The field that [`Field::new`] builds for the given window extent and
    /// margin: horizontal bars along the top and bottom spanning the inner
    /// width, and vertical bars near x of plus and minus 300 world units
    /// spanning the inner height, each inset by the margin.
    pub open spec fn standard(window_width: int, window_height: int, window_margin: int) -> FieldView {
        FieldView {
            top: WallView {
                position_y: -(window_height / 2) + window_margin,
                position_x: -(window_width / 2) + window_margin,
                width: window_width - window_margin * 2,
                height: WALL_THICKNESS as int,
                rotation: 0,
                color: Color { red: 255, green: 255, blue: 255, alpha: 255 },
            },
            right: WallView {
                position_y: -200 * SCALE + window_margin,
                position_x: 300 * SCALE - window_margin,
                width: WALL_THICKNESS as int,
                height: window_height - window_margin * 2,
                rotation: 90 * SCALE,
                color: Color { red: 255, green: 255, blue: 255, alpha: 255 },
            },
            bottom: WallView {
                position_y: 200 * SCALE - window_margin - WALL_THICKNESS,
                position_x: -(window_width / 2) + window_margin,
                width: window_width - window_margin * 2,
                height: WALL_THICKNESS as int,
                rotation: 0,
                color: Color { red: 255, green: 255, blue: 255, alpha: 255 },
            },
            left: WallView {
                position_y: -200 * SCALE + window_margin,
                position_x: -300 * SCALE + window_margin,
                width: WALL_THICKNESS as int,
                height: window_height - window_margin * 2,
                rotation: 90 * SCALE,
                color: Color { red: 255, green: 255, blue: 255, alpha: 255 },
            },
            background_color: Color { red: 0, green: 0, blue: 0, alpha: 255 },
        }
    }
}

impl Field {
    /// Builds the playing field for a window of the given extent.
    ///
    /// The margin must leave the inner area nonempty; a host with a
    /// malformed configuration must refuse it before construction.
    pub fn new(window_width: i64, window_height: i64, window_margin: i64) -> (f: Field)
        requires
            0 <= window_margin,
            2 * window_margin < window_width <= MAX_DIMENSION,
            2 * window_margin < window_height <= MAX_DIMENSION,
        ensures
            f@ == FieldView::standard(window_width as int, window_height as int, window_margin as int),
            f@.wf(),
    {
        let external_walls = Field::create_external_walls(window_width, window_height, window_margin);

        let background_color = Color::black();

        Field { external_walls, background_color }
    }

    /// Builds the four boundary walls in construction order: top, right,
    /// bottom, left.
    pub fn create_external_walls(
        window_width: i64,
        window_height: i64,
        window_margin: i64,
    ) -> (walls: [Wall; 4])
        requires
            0 <= window_margin,
            2 * window_margin < window_width <= MAX_DIMENSION,
            2 * window_margin < window_height <= MAX_DIMENSION,
        ensures
            walls@[0]@ == FieldView::standard(window_width as int, window_height as int, window_margin as int).top,
            walls@[1]@ == FieldView::standard(window_width as int, window_height as int, window_margin as int).right,
            walls@[2]@ == FieldView::standard(window_width as int, window_height as int, window_margin as int).bottom,
            walls@[3]@ == FieldView::standard(window_width as int, window_height as int, window_margin as int).left,
    {
        let wall1 = Wall::new(
            window_width - window_margin * 2,
            WALL_THICKNESS,
            0 - window_width / 2 + window_margin,
            0 - window_height / 2 + window_margin,
            0,
        );

        let wall2 = Wall::new(
            WALL_THICKNESS,
            window_height - window_margin * 2,
            300 * SCALE - window_margin,
            -200 * SCALE + window_margin,
            90 * SCALE,
        );

        let wall3 = Wall::new(
            window_width - window_margin * 2,
            WALL_THICKNESS,
            0 - window_width / 2 + window_margin,
            200 * SCALE - window_margin - WALL_THICKNESS,
            0,
        );

        let wall4 = Wall::new(
            WALL_THICKNESS,
            window_height - window_margin * 2,
            -300 * SCALE + window_margin,
            -200 * SCALE + window_margin,
            90 * SCALE,
        );

        [wall1, wall2, wall3, wall4]
    }
}

} // verus!
