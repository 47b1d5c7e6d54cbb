//! The main menu: three entries and a cursor.

use crate::keys::Key;
use crate::screens::interpret;
use crate::screens::interpretation;
use crate::screens::Action;
use crate::screens::ScreenKind;
use crate::selection::moved;
use crate::selection::Selection;
use vstd::prelude::*;

verus! {

/// The menu screen: the labels of its entries and the cursor over them.
#[derive(Clone, Copy, Debug, PartialEq, Eq)]
pub struct MenuScreen {
    pub menu_state: Selection,
    pub menu_options: &'static [&'static str],
}

impl MenuScreen {
    /// Holds when the menu has an entry and the cursor stands on one.
    pub open spec fn well_formed(&self) -> bool {
        &&& self.menu_options@.len() > 0
        &&& self.menu_state.selected matches Some(i) && i < self.menu_options@.len()
    }

    /// Holds for the menu as it is when the screen is entered: the three
    /// entries, the cursor on the first.
    pub open spec fn is_fresh(&self) -> bool {
        &&& self.menu_state.selected == Some(0usize)
        &&& self.menu_options@.len() == 3
        &&& self.menu_options@[0]@ == "1. Add / Update Problem"@
        &&& self.menu_options@[1]@ == "2. List All Problems "@
        &&& self.menu_options@[2]@ == "3. See Graph of Problems "@
    }

    /// Computes [`Self::well_formed`].
    pub fn is_well_formed(&self) -> (ok: bool)
        ensures
            ok == self.well_formed(),
    {
        match self.menu_state.selected() {
            Some(i) => i < self.menu_options.len(),
            None => false,
        }
    }

    /// The meaning of `key` on the menu. The screen itself stays as it is:
    /// moving and committing the cursor is left to whoever owns the screen.
    pub fn handle_key_event(&mut self, key: Key) -> (action: Action)
        ensures
            action == interpretation(ScreenKind::Menu, key),
            *final(self) == *old(self),
    {
        interpret(ScreenKind::Menu, key)
    }

    /// Moves the cursor `direction` entries on, round the circle of entries.
    pub fn move_selection(&mut self, direction: isize)
        requires
            old(self).well_formed(),
        ensures
            final(self).well_formed(),
            final(self).menu_options == old(self).menu_options,
            final(self).menu_state.selected == moved(
                old(self).menu_state.selected,
                direction as int,
                old(self).menu_options@.len() as int,
            ),
    {
        self.menu_state.move_by(direction, self.menu_options.len());
    }

    /// The entry that the cursor stands on, for the caller to act on.
    pub fn commit(&self) -> (index: Option<usize>)
        ensures
            index == self.menu_state.selected,
    {
        self.menu_state.selected()
    }
}

impl Default for MenuScreen {
    fn default() -> (screen: MenuScreen)
        ensures
            screen.is_fresh(),
            screen.well_formed(),
    {
        MenuScreen {
            menu_state: Selection::new(),
            menu_options: &[
                "1. Add / Update Problem",
                "2. List All Problems ",
                "3. See Graph of Problems ",
            ],
        }
    }
}

} // verus!
