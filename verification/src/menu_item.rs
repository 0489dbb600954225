//! A single entry of the pause menu.

use vstd::prelude::*;
use crate::color::Color;
use crate::SCALE;

verus! {

/// Width of a menu entry's layout rectangle (200 world units).
pub const MENU_ITEM_WIDTH: i64 = 200 * SCALE;

/// Height of a menu entry's layout rectangle (30 world units).
pub const MENU_ITEM_HEIGHT: i64 = 30 * SCALE;

/// Horizontal position shared by all menu entries.
pub const MENU_ITEM_POSITION_X: i64 = 0;

/// Vertical spacing margin between menu entries (15 world units).
pub const MENU_ITEM_MARGIN: i64 = 15 * SCALE;

/// Mathematical image of a [`MenuItem`]: the label as a character sequence
/// and the layout over unbounded integers.
pub ghost struct MenuItemView {
    pub index: u8,
    pub text: Seq<char>,
    pub text_color: Color,
    pub background_color: Color,
    pub position_x: int,
    pub position_y: int,
    pub width: int,
    pub height: int,
}

/// One selectable entry of the menu: a label and a fixed layout rectangle.
/// Read-only once constructed.
pub struct MenuItem {
    pub index: u8,
    pub text: String,
    pub text_color: Color,
    pub background_color: Color,
    pub position_x: i64,
    pub position_y: i64,
    pub width: i64,
    pub height: i64,
}

impl View for MenuItem {
    type V = MenuItemView;

    open spec fn view(&self) -> MenuItemView {
        MenuItemView {
            index: self.index,
            text: self.text@,
            text_color: self.text_color,
            background_color: self.background_color,
            position_x: self.position_x as int,
            position_y: self.position_y as int,
            width: self.width as int,
            height: self.height as int,
        }
    }
}

impl MenuItemView {
    /// The layout that [`MenuItem::new`] assigns to an entry with the given
    /// index and label: entries stack downward, each two heights plus two
    /// margins apart.
    pub open spec fn standard(index: u8, text: Seq<char>) -> MenuItemView {
        MenuItemView {
            index,
            text,
            text_color: Color { red: 255, green: 255, blue: 255, alpha: 255 },
            background_color: Color { red: 0, green: 0, blue: 0, alpha: 255 },
            position_x: MENU_ITEM_POSITION_X as int,
            position_y: index * ((MENU_ITEM_HEIGHT + MENU_ITEM_MARGIN) * 2),
            width: MENU_ITEM_WIDTH as int,
            height: MENU_ITEM_HEIGHT as int,
        }
    }
}

impl MenuItem {
    /// Builds the menu entry with the given index and label at its standard
    /// layout position.
    pub fn new(index: u8, text: String) -> (item: MenuItem)
        ensures
            item@ == MenuItemView::standard(index, text@),
    {
        let spacing: i64 = (MENU_ITEM_HEIGHT + MENU_ITEM_MARGIN) * 2;
        assert(spacing == 9000);
        let position_y: i64 = (index as i64) * spacing;

        MenuItem {
            index,
            text,
            text_color: Color::white(),
            background_color: Color::black(),
            position_x: MENU_ITEM_POSITION_X,
            position_y,
            width: MENU_ITEM_WIDTH,
            height: MENU_ITEM_HEIGHT,
        }
    }
}

} // verus!
