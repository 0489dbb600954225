//! The pause menu: three fixed entries and a selection cursor.

use vstd::prelude::*;
use vstd::string::StringExecFns;
use crate::menu_item::MenuItem;
use crate::menu_item::MenuItemView;

verus! {

/// Number of entries in the menu.
pub const MENU_ITEM_COUNT: u8 = 3;

/// Mathematical image of a [`Menu`]: the three entries in order and the
/// selection index.
pub ghost struct MenuView {
    pub first: MenuItemView,
    pub second: MenuItemView,
    pub third: MenuItemView,
    pub selected_item: int,
}

/// The menu shown while the game is not playing: three fixed entries and
/// the index of the currently selected one. Only the selection ever changes
/// after construction.
pub struct Menu {
    pub items: [MenuItem; 3],
    pub selected_item: u8,
}

impl View for Menu {
    type V = MenuView;

    open spec fn view(&self) -> MenuView {
        MenuView {
            first: self.items@[0]@,
            second: self.items@[1]@,
            third: self.items@[2]@,
            selected_item: self.selected_item as int,
        }
    }
}

impl MenuView {
    /// The selection index points at one of the three entries.
    pub open spec fn wf(self) -> bool {
        0 <= self.selected_item < MENU_ITEM_COUNT
    }

    /// The selection one step up, wrapping from the first entry to the
    /// last.
    pub open spec fn selected_up(self) -> int {
        if self.selected_item == 0 {
            (MENU_ITEM_COUNT - 1) as int
        } else {
            self.selected_item - 1
        }
    }

    /// The selection one step down, wrapping from the last entry to the
    /// first.
    pub open spec fn selected_down(self) -> int {
        if self.selected_item == MENU_ITEM_COUNT - 1 {
            0
        } else {
            self.selected_item + 1
        }
    }

    /// The menu that [`Menu::new`] builds: the three standard entries, the
    /// first one selected.
    pub open spec fn standard() -> MenuView {
        MenuView {
            first: MenuItemView::standard(1, "Retomar"@),
            second: MenuItemView::standard(2, "Opcões"@),
            third: MenuItemView::standard(3, "Sair"@),
            selected_item: 0,
        }
    }
}

impl Menu {
    /// Builds the menu with its three standard entries, the first one
    /// selected.
    pub fn new() -> (m: Menu)
        ensures
            m@ == MenuView::standard(),
            m@.wf(),
    {
        let menu_item1: MenuItem = MenuItem::new(1, String::from_str("Retomar"));

        let menu_item2: MenuItem = MenuItem::new(2, String::from_str("Opcões"));

        let menu_item3: MenuItem = MenuItem::new(3, String::from_str("Sair"));

        let items: [MenuItem; 3] = [menu_item1, menu_item2, menu_item3];

        let selected_item: u8 = 0;

        Menu { selected_item, items }
    }
}

} // verus!
