//! The list of every stored problem, with a cursor.

use crate::keys::Key;
use crate::screens::interpret;
use crate::screens::interpretation;
use crate::screens::Action;
use crate::screens::Problem;
use crate::screens::ScreenKind;
use crate::selection::moved;
use crate::selection::Selection;
use vstd::prelude::*;

verus! {

/// The list screen: the problems as they were read when the screen was
/// entered, and the cursor over them.
#[derive(Clone, Debug, PartialEq, Eq)]
pub struct ViewAllProblemsScreen {
    pub items: Vec<Problem>,
    pub list_state: Selection,
}

impl ViewAllProblemsScreen {
    /// Holds when the cursor stands on a problem of the list or, in a list
    /// without problems, where the first one would be.
    pub open spec fn well_formed(&self) -> bool {
        self.list_state.selected matches Some(i) && (i < self.items@.len() || i == 0)
    }

    /// The list screen over `items`, which the caller has read from the
    /// store, with the cursor on the first of them.
    pub fn new(items: Vec<Problem>) -> (screen: ViewAllProblemsScreen)
        ensures
            screen.items == items,
            screen.list_state.selected == Some(0usize),
            screen.well_formed(),
    {
        ViewAllProblemsScreen { items, list_state: Selection::new() }
    }

    /// Computes [`Self::well_formed`].
    pub fn is_well_formed(&self) -> (ok: bool)
        ensures
            ok == self.well_formed(),
    {
        match self.list_state.selected() {
            Some(i) => i < self.items.len() || i == 0,
            None => false,
        }
    }

    /// The meaning of `key` on the list. The screen itself stays as it is.
    pub fn handle_key_event(&mut self, key: Key) -> (action: Action)
        ensures
            action == interpretation(ScreenKind::ViewAllProblems, key),
            *final(self) == *old(self),
    {
        interpret(ScreenKind::ViewAllProblems, key)
    }

    /// Moves the cursor `direction` problems on, round the circle of
    /// problems. Over a list without problems the cursor stays where it is.
    pub fn move_selection(&mut self, direction: isize)
        requires
            old(self).well_formed(),
        ensures
            final(self).well_formed(),
            final(self).items == old(self).items,
            old(self).items@.len() > 0 ==> final(self).list_state.selected == moved(
                old(self).list_state.selected,
                direction as int,
                old(self).items@.len() as int,
            ),
            old(self).items@.len() == 0 ==> final(self).list_state == old(self).list_state,
    {
        if self.items.len() > 0 {
            self.list_state.move_by(direction, self.items.len());
        }
    }
}

} // verus!
