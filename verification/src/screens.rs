//! The screens, the actions that a key press can mean, and the table that
//! maps the one to the other.

pub mod add_problem_screen;
pub mod graph_screen;
pub mod menu_screen;
pub mod view_all_problems_screen;

use crate::keys::Key;
use crate::screens::add_problem_screen::AddProblemScreen;
use crate::screens::graph_screen::GraphScreen;
use crate::screens::menu_screen::MenuScreen;
use crate::screens::view_all_problems_screen::ViewAllProblemsScreen;
use vstd::prelude::*;

verus! {

/// Which screen is shown, without what it holds.
#[derive(Clone, Copy, Debug, PartialEq, Eq, Structural)]
pub enum ScreenKind {
    Home,
    Menu,
    AddProblem,
    ViewAllProblems,
    Graph,
}

/// What one key press means to the screen that received it.
#[derive(Clone, Copy, Debug, PartialEq, Eq, Structural)]
pub enum Action {
    Quit,
    ShouldSwitch,
    ScreenSpecific(ScreenAction),
    NoOp,
}

/// An action that only a screen with a list understands.
#[derive(Clone, Copy, Debug, PartialEq, Eq, Structural)]
pub enum ScreenAction {
    MenuNext,
    MenuPrev,
    MenuSelect,
}

/// The field of the entry form that has the focus.
#[derive(Clone, Copy, Debug, PartialEq, Eq, Structural)]
pub enum InputSelector {
    ProblemName,
    ProblemRating,
}

/// One recorded problem: its name, its rating and the time of the entry.
#[derive(Clone, Debug, PartialEq, Eq)]
pub struct Problem {
    pub name: String,
    pub rating: String,
    pub entry_date: String,
}

/// The start screen. It holds nothing.
#[derive(Clone, Copy, Debug, PartialEq, Eq, Structural)]
pub struct HomeScreen {}

/// The screen that is shown, with what it holds. One screen is shown at a
/// time, and a screen that is left is gone: to come back to it is to build
/// it anew.
#[derive(Clone, Debug, PartialEq, Eq)]
pub enum Screen {
    HomeScreen(HomeScreen),
    MenuScreen(MenuScreen),
    AddProblemScreen(AddProblemScreen),
    ViewAllProblemsScreen(ViewAllProblemsScreen),
    GraphScreen(GraphScreen),
}

/// Holds for the screens that own a list and a cursor over it.
pub open spec fn has_menu(kind: ScreenKind) -> bool {
    kind == ScreenKind::Menu || kind == ScreenKind::ViewAllProblems
}

/// The meaning of `key` on a screen of kind `kind`.
///
/// On a screen with a list: `q` quits, `Esc` leaves the screen, `Down`, `Up`
/// and `Enter` move and commit the cursor. The start screen knows only `q`
/// and `Enter`, which leads on. The entry form and the graph know only `Esc`;
/// what else the entry form does with a key stays inside that screen.
pub open spec fn interpretation(kind: ScreenKind, key: Key) -> Action {
    match kind {
        ScreenKind::Home => match key {
            Key::Char('q') => Action::Quit,
            Key::Enter => Action::ShouldSwitch,
            _ => Action::NoOp,
        },
        ScreenKind::Menu | ScreenKind::ViewAllProblems => match key {
            Key::Char('q') => Action::Quit,
            Key::Esc => Action::ShouldSwitch,
            Key::Down => Action::ScreenSpecific(ScreenAction::MenuNext),
            Key::Up => Action::ScreenSpecific(ScreenAction::MenuPrev),
            Key::Enter => Action::ScreenSpecific(ScreenAction::MenuSelect),
            _ => Action::NoOp,
        },
        ScreenKind::AddProblem | ScreenKind::Graph => match key {
            Key::Esc => Action::ShouldSwitch,
            _ => Action::NoOp,
        },
    }
}

/// Computes [`interpretation`].
pub fn interpret(kind: ScreenKind, key: Key) -> (action: Action)
    ensures
        action == interpretation(kind, key),
{
    match kind {
        ScreenKind::Home => match key {
            Key::Char('q') => Action::Quit,
            Key::Enter => Action::ShouldSwitch,
            _ => Action::NoOp,
        },
        ScreenKind::Menu | ScreenKind::ViewAllProblems => match key {
            Key::Char('q') => Action::Quit,
            Key::Esc => Action::ShouldSwitch,
            Key::Down => Action::ScreenSpecific(ScreenAction::MenuNext),
            Key::Up => Action::ScreenSpecific(ScreenAction::MenuPrev),
            Key::Enter => Action::ScreenSpecific(ScreenAction::MenuSelect),
            _ => Action::NoOp,
        },
        ScreenKind::AddProblem | ScreenKind::Graph => match key {
            Key::Esc => Action::ShouldSwitch,
            _ => Action::NoOp,
        },
    }
}

impl HomeScreen {
    /// `q` quits and `Enter` leads on to the menu; no other key does anything.
    pub fn handle_key_event(&mut self, key: Key) -> (action: Action)
        ensures
            action == interpretation(ScreenKind::Home, key),
            *final(self) == *old(self),
    {
        interpret(ScreenKind::Home, key)
    }
}

impl Screen {
    /// Which screen this is.
    pub open spec fn kind(&self) -> ScreenKind {
        match self {
            Screen::HomeScreen(_) => ScreenKind::Home,
            Screen::MenuScreen(_) => ScreenKind::Menu,
            Screen::AddProblemScreen(_) => ScreenKind::AddProblem,
            Screen::ViewAllProblemsScreen(_) => ScreenKind::ViewAllProblems,
            Screen::GraphScreen(_) => ScreenKind::Graph,
        }
    }

    /// Holds when the screen that is shown is well formed: a cursor stands
    /// on an entry of its list, a heatmap begins on a weekday.
    pub open spec fn well_formed(&self) -> bool {
        match self {
            Screen::MenuScreen(menu) => menu.well_formed(),
            Screen::ViewAllProblemsScreen(list) => list.well_formed(),
            Screen::GraphScreen(graph) => graph.well_formed(),
            _ => true,
        }
    }

    /// Computes [`Self::well_formed`].
    pub fn is_well_formed(&self) -> (ok: bool)
        ensures
            ok == self.well_formed(),
    {
        match self {
            Screen::MenuScreen(menu) => menu.is_well_formed(),
            Screen::ViewAllProblemsScreen(list) => list.is_well_formed(),
            Screen::GraphScreen(graph) => graph.is_well_formed(),
            _ => true,
        }
    }

    /// Computes [`Self::kind`].
    pub fn screen_kind(&self) -> (kind: ScreenKind)
        ensures
            kind == self.kind(),
    {
        match self {
            Screen::HomeScreen(_) => ScreenKind::Home,
            Screen::MenuScreen(_) => ScreenKind::Menu,
            Screen::AddProblemScreen(_) => ScreenKind::AddProblem,
            Screen::ViewAllProblemsScreen(_) => ScreenKind::ViewAllProblems,
            Screen::GraphScreen(_) => ScreenKind::Graph,
        }
    }
}

impl Default for Screen {
    fn default() -> (screen: Screen)
        ensures
            screen == Screen::HomeScreen(HomeScreen {  }),
    {
        Screen::HomeScreen(HomeScreen {  })
    }
}

impl Default for Action {
    fn default() -> (action: Action)
        ensures
            action == Action::NoOp,
    {
        Action::NoOp
    }
}

impl Default for InputSelector {
    fn default() -> (field: InputSelector)
        ensures
            field == InputSelector::ProblemName,
    {
        InputSelector::ProblemName
    }
}

impl Default for HomeScreen {
    fn default() -> (screen: HomeScreen)
        ensures
            screen == (HomeScreen {  }),
    {
        HomeScreen {  }
    }
}

} // verus!
