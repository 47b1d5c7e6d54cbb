//! The state machine of the program: which screen is shown, what a key
//! press does to it, and which screen follows which.

use crate::calendar::days_from_monday;
use crate::calendar::utc_now;
use crate::calendar::MAX_YEAR;
use crate::calendar::MIN_YEAR;
use crate::keys::Key;
use crate::requests::Reply;
use crate::requests::Request;
use crate::screens::add_problem_screen::AddProblemScreen;
use crate::screens::graph_screen::entry_days;
use crate::screens::graph_screen::GraphScreen;
use crate::screens::has_menu;
use crate::screens::interpretation;
use crate::screens::menu_screen::MenuScreen;
use crate::screens::view_all_problems_screen::ViewAllProblemsScreen;
use crate::screens::Action;
use crate::screens::HomeScreen;
use crate::screens::Problem;
use crate::screens::Screen;
use crate::screens::ScreenAction;
use crate::selection::lemma_back_undoes_forward;
use crate::selection::moved;
use crate::selection::Selection;
use vstd::prelude::*;

verus! {

/// The program's state: the screen that is shown, and whether the user has
/// asked to quit.
#[derive(Clone, Debug, PartialEq, Eq)]
pub struct App {
    pub should_quit: bool,
    pub current_screen: Screen,
}

/// Holds where `next` is the screen that follows `screen` when the user
/// leaves it: the menu follows the start screen and every screen that the
/// menu opens, and the start screen follows the menu. The menu is built
/// anew each time.
pub open spec fn leads_to(screen: Screen, next: Screen) -> bool {
    match screen {
        Screen::MenuScreen(_) => next == Screen::HomeScreen(HomeScreen {  }),
        _ => next matches Screen::MenuScreen(menu) && menu.is_fresh() && menu.well_formed(),
    }
}

/// Holds where `screen` is what the menu entry `index` opens over the
/// stored problems `problems`: the first entry an empty form, the second
/// the list of the problems with the cursor on the first, the third the
/// heatmap of their days in a year that the calendar knows.
pub open spec fn opened_by(index: int, problems: Seq<Problem>, screen: Screen) -> bool {
    if index == 0 {
        screen matches Screen::AddProblemScreen(form) && form.is_fresh()
    } else if index == 1 {
        screen matches Screen::ViewAllProblemsScreen(list) && list.items@ == problems
            && list.list_state.selected == Some(0usize)
    } else if index == 2 {
        screen matches Screen::GraphScreen(graph) && {
            &&& graph.well_formed()
            &&& graph.days@ == entry_days(problems)
            &&& MIN_YEAR <= graph.current_year <= MAX_YEAR
            &&& Some(graph.offset as u32) == days_from_monday(graph.current_year as int, 1, 1)
        }
    } else {
        false
    }
}

/// The screen after its cursor has moved by `direction`. Only the menu and
/// the list of problems have a cursor, and the cursor of a list without
/// problems stays where it is.
pub open spec fn with_cursor_moved(screen: Screen, direction: int) -> Screen {
    match screen {
        Screen::MenuScreen(menu) => Screen::MenuScreen(
            MenuScreen {
                menu_state: Selection {
                    selected: moved(
                        menu.menu_state.selected,
                        direction,
                        menu.menu_options@.len() as int,
                    ),
                },
                ..menu
            },
        ),
        Screen::ViewAllProblemsScreen(list) => if list.items@.len() > 0 {
            Screen::ViewAllProblemsScreen(
                ViewAllProblemsScreen {
                    list_state: Selection {
                        selected: moved(
                            list.list_state.selected,
                            direction,
                            list.items@.len() as int,
                        ),
                    },
                    ..list
                },
            )
        } else {
            screen
        },
        _ => screen,
    }
}

/// Holds where committing the cursor of `screen` leads to `next` with the
/// request `request`. On the menu, the first entry opens the form at once;
/// the second and the third need the stored problems first, so the menu
/// stays and asks for them. Nowhere else does a commit do anything.
pub open spec fn committed_to(screen: Screen, next: Screen, request: Request) -> bool {
    match screen {
        Screen::MenuScreen(menu) => match menu.menu_state.selected {
            Some(i) => if i == 0 {
                opened_by(0, Seq::empty(), next) && request == Request::Nothing
            } else if i == 1 || i == 2 {
                next == screen && request == Request::LoadProblems
            } else {
                next == screen && request == Request::Nothing
            },
            None => next == screen && request == Request::Nothing,
        },
        _ => next == screen && request == Request::Nothing,
    }
}

/// Holds where the action `action` on `screen` leads to `next` with the
/// request `request`. An action of a list is delivered only to a screen that
/// has one.
pub open spec fn acted(screen: Screen, action: ScreenAction, next: Screen, request: Request) -> bool {
    match action {
        ScreenAction::MenuNext => next == with_cursor_moved(screen, 1) && request
            == Request::Nothing,
        ScreenAction::MenuPrev => next == with_cursor_moved(screen, -1) && request
            == Request::Nothing,
        ScreenAction::MenuSelect => committed_to(screen, next, request),
    }
}

/// Holds where the key `key` takes the program from `pre` to `post` with the
/// request `request`.
///
/// The entry form takes every key itself and is left on `Esc`. Every other
/// screen gives the key its meaning, and the meaning is carried out:
/// quitting raises the flag and leaves the screen, switching leads to the
/// screen that follows, an action of a list moves or commits the cursor.
pub open spec fn key_handled(pre: App, key: Key, post: App, request: Request) -> bool {
    match pre.current_screen {
        Screen::AddProblemScreen(form) => {
            &&& post.should_quit == pre.should_quit
            &&& match key {
                Key::Esc => leads_to(pre.current_screen, post.current_screen) && request
                    == Request::Nothing,
                _ => post.current_screen == Screen::AddProblemScreen(form.after_key(key))
                    && form.after_key(key).asks(request),
            }
        },
        _ => match interpretation(pre.current_screen.kind(), key) {
            Action::Quit => post.should_quit && post.current_screen == pre.current_screen
                && request == Request::Nothing,
            Action::ShouldSwitch => post.should_quit == pre.should_quit && leads_to(
                pre.current_screen,
                post.current_screen,
            ) && request == Request::Nothing,
            Action::ScreenSpecific(action) => post.should_quit == pre.should_quit && acted(
                pre.current_screen,
                action,
                post.current_screen,
                request,
            ),
            Action::NoOp => post == pre && request == Request::Nothing,
        },
    }
}

/// Holds where the reply `reply` takes the program from `pre` to `post` with
/// the request `request`.
///
/// The stored problems open the list or the heatmap where the menu's cursor
/// stands on that entry. Every other reply belongs to the entry form, which
/// may ask for the next step. A reply that nobody waits for changes nothing.
pub open spec fn reply_handled(pre: App, reply: Reply, post: App, request: Request) -> bool {
    &&& post.should_quit == pre.should_quit
    &&& match (pre.current_screen, reply) {
        (Screen::MenuScreen(menu), Reply::Problems(problems)) => if menu.menu_state.selected
            == Some(1usize) || menu.menu_state.selected == Some(2usize) {
            opened_by(menu.menu_state.selected.unwrap() as int, problems@, post.current_screen)
                && request == Request::Nothing
        } else {
            post.current_screen == pre.current_screen && request == Request::Nothing
        },
        (Screen::AddProblemScreen(form), _) => post.current_screen == Screen::AddProblemScreen(
            form.after_reply(reply),
        ) && form.after_reply(reply).asks(request),
        _ => post.current_screen == pre.current_screen && request == Request::Nothing,
    }
}

impl App {
    /// Holds when the screen that is shown is well formed.
    pub open spec fn well_formed(&self) -> bool {
        self.current_screen.well_formed()
    }

    /// Computes [`Self::well_formed`].
    pub fn is_well_formed(&self) -> (ok: bool)
        ensures
            ok == self.well_formed(),
    {
        self.current_screen.is_well_formed()
    }

    /// The program at its start: the start screen, and no wish to quit.
    pub fn new() -> (app: App)
        ensures
            app.current_screen == Screen::HomeScreen(HomeScreen {  }),
            !app.should_quit,
            app.well_formed(),
    {
        App { should_quit: false, current_screen: Screen::HomeScreen(HomeScreen {  }) }
    }

    /// Raises the flag that ends the program.
    pub fn quit(&mut self)
        ensures
            final(self).should_quit,
            final(self).current_screen == old(self).current_screen,
    {
        self.should_quit = true;
    }

    /// Leaves the screen that is shown for the one that follows it.
    pub fn switch_screens(&mut self)
        ensures
            final(self).should_quit == old(self).should_quit,
            leads_to(old(self).current_screen, final(self).current_screen),
            final(self).well_formed(),
    {
        let next = match &self.current_screen {
            Screen::MenuScreen(_) => Screen::HomeScreen(HomeScreen {  }),
            _ => Screen::MenuScreen(MenuScreen::default()),
        };
        self.current_screen = next;
    }

    /// Opens the screen of the menu entry `index` over the stored problems
    /// `problems`, whatever screen is shown. The form and the heatmap take
    /// the time from the clock. An index that names no entry opens nothing.
    pub fn switch_screen_menu(&mut self, index: i8, problems: Vec<Problem>)
        requires
            old(self).well_formed(),
        ensures
            final(self).well_formed(),
            final(self).should_quit == old(self).should_quit,
            0 <= index <= 2 ==> opened_by(index as int, problems@, final(self).current_screen),
            !(0 <= index <= 2) ==> final(self).current_screen == old(self).current_screen,
    {
        if index == 0 {
            let now = utc_now();
            self.current_screen = Screen::AddProblemScreen(AddProblemScreen::new(now.0));
        } else if index == 1 {
            self.current_screen = Screen::ViewAllProblemsScreen(
                ViewAllProblemsScreen::new(problems),
            );
        } else if index == 2 {
            let now = utc_now();
            match GraphScreen::new(&problems, now.1) {
                Some(graph) => {
                    self.current_screen = Screen::GraphScreen(graph);
                },
                None => {},
            }
        }
    }

    /// Moves the cursor of the screen that is shown by `direction`, round
    /// the circle of its entries.
    pub fn move_menu_selection(&mut self, direction: isize)
        requires
            old(self).well_formed(),
        ensures
            final(self).well_formed(),
            final(self).should_quit == old(self).should_quit,
            final(self).current_screen == with_cursor_moved(
                old(self).current_screen,
                direction as int,
            ),
    {
        match &mut self.current_screen {
            Screen::MenuScreen(menu) => {
                menu.move_selection(direction);
            },
            Screen::ViewAllProblemsScreen(list) => {
                list.move_selection(direction);
            },
            _ => {},
        }
    }

    /// Commits the cursor of the menu.
    pub fn select_menu_item(&mut self) -> (request: Request)
        requires
            old(self).well_formed(),
        ensures
            final(self).well_formed(),
            final(self).should_quit == old(self).should_quit,
            committed_to(old(self).current_screen, final(self).current_screen, request),
    {
        let selected = match &self.current_screen {
            Screen::MenuScreen(menu) => menu.commit(),
            _ => None,
        };
        match selected {
            Some(0) => {
                self.switch_screen_menu(0, Vec::new());
                Request::Nothing
            },
            Some(1) => Request::LoadProblems,
            Some(2) => Request::LoadProblems,
            _ => Request::Nothing,
        }
    }

    /// Delivers an action of a list to the screen that is shown.
    pub fn handle_screen_action(&mut self, action: ScreenAction) -> (request: Request)
        requires
            old(self).well_formed(),
        ensures
            final(self).well_formed(),
            final(self).should_quit == old(self).should_quit,
            acted(old(self).current_screen, action, final(self).current_screen, request),
    {
        match action {
            ScreenAction::MenuNext => {
                self.move_menu_selection(1);
                Request::Nothing
            },
            ScreenAction::MenuPrev => {
                self.move_menu_selection(-1);
                Request::Nothing
            },
            ScreenAction::MenuSelect => self.select_menu_item(),
        }
    }

    /// Takes one key press and says what is to be done before the next.
    pub fn handle_events(&mut self, key: Key) -> (request: Request)
        requires
            old(self).well_formed(),
        ensures
            final(self).well_formed(),
            key_handled(*old(self), key, *final(self), request),
    {
        let action = match &mut self.current_screen {
            Screen::HomeScreen(home) => home.handle_key_event(key),
            Screen::MenuScreen(menu) => menu.handle_key_event(key),
            Screen::AddProblemScreen(form) => form.handle_key_event(key),
            Screen::ViewAllProblemsScreen(list) => list.handle_key_event(key),
            Screen::GraphScreen(graph) => graph.handle_key_event(key),
        };
        match action {
            Action::Quit => {
                self.quit();
                Request::Nothing
            },
            Action::ShouldSwitch => {
                self.switch_screens();
                Request::Nothing
            },
            Action::ScreenSpecific(screen_action) => self.handle_screen_action(screen_action),
            Action::NoOp => match &self.current_screen {
                Screen::AddProblemScreen(form) => form.request(),
                _ => Request::Nothing,
            },
        }
    }

    /// Takes the reply to the last request and says what is to be done next.
    pub fn handle_reply(&mut self, reply: Reply) -> (request: Request)
        requires
            old(self).well_formed(),
        ensures
            final(self).well_formed(),
            reply_handled(*old(self), reply, *final(self), request),
    {
        match &mut self.current_screen {
            Screen::MenuScreen(menu) => {
                let selected = menu.commit();
                match reply {
                    Reply::Problems(problems) => {
                        if selected == Some(1) {
                            self.switch_screen_menu(1, problems);
                        } else if selected == Some(2) {
                            self.switch_screen_menu(2, problems);
                        }
                    },
                    _ => {},
                }
                Request::Nothing
            },
            Screen::AddProblemScreen(form) => {
                form.handle_reply(reply);
                form.request()
            },
            _ => Request::Nothing,
        }
    }
}

/// From the menu with the cursor on the first entry, `Enter` opens the
/// entry form, empty, whatever the program went through before: nothing
/// but the menu's cursor decides.
pub proof fn lemma_first_entry_opens_form(pre: App, post: App, request: Request)
    requires
        pre.current_screen matches Screen::MenuScreen(menu) && menu.menu_state.selected == Some(
            0usize,
        ),
        key_handled(pre, Key::Enter, post, request),
    ensures
        post.current_screen matches Screen::AddProblemScreen(form) && form.is_fresh(),
        post.should_quit == pre.should_quit,
        request == Request::Nothing,
{
}

/// `Esc` leads from the form, the list and the heatmap straight back to the
/// menu, built anew with its cursor on the first entry, and from the menu
/// to the start screen. No screen remembers where the user came from.
pub proof fn lemma_escape_leads_back(pre: App, post: App, request: Request)
    requires
        !(pre.current_screen is HomeScreen),
        key_handled(pre, Key::Esc, post, request),
    ensures
        pre.current_screen is MenuScreen ==> post.current_screen == Screen::HomeScreen(
            HomeScreen {  },
        ),
        !(pre.current_screen is MenuScreen) ==> (post.current_screen matches Screen::MenuScreen(
            menu,
        ) && menu.is_fresh()),
        post.should_quit == pre.should_quit,
        request == Request::Nothing,
{
}

/// An action of a list that reaches a screen without a list does nothing:
/// the screen stays as it is and nothing is asked for.
pub proof fn lemma_list_actions_need_a_list(
    screen: Screen,
    action: ScreenAction,
    next: Screen,
    request: Request,
)
    requires
        !has_menu(screen.kind()),
        acted(screen, action, next, request),
    ensures
        next == screen,
        request == Request::Nothing,
{
}

/// On a screen that is well formed, a step back undoes a step forward and a
/// step forward undoes a step back: the screen is again what it was.
pub proof fn lemma_cursor_there_and_back(screen: Screen)
    requires
        screen.well_formed(),
    ensures
        with_cursor_moved(with_cursor_moved(screen, 1), -1) == screen,
        with_cursor_moved(with_cursor_moved(screen, -1), 1) == screen,
{
    match screen {
        Screen::MenuScreen(menu) => {
            let index = menu.menu_state.selected.unwrap();
            let len = vstd::slice::spec_slice_len(menu.menu_options);
            vstd::slice::axiom_spec_len(menu.menu_options);
            lemma_back_undoes_forward(index, len);
        },
        Screen::ViewAllProblemsScreen(list) => {
            if list.items@.len() > 0 {
                let index = list.list_state.selected.unwrap();
                let len = list.items.len();
                lemma_back_undoes_forward(index, len);
            }
        },
        _ => {},
    }
}

/// The flag that ends the program is raised by `q` alone, on a screen that
/// quits on `q`, and no key lowers it.
pub proof fn lemma_only_q_quits(pre: App, key: Key, post: App, request: Request)
    requires
        key_handled(pre, key, post, request),
    ensures
        pre.should_quit ==> post.should_quit,
        post.should_quit && !pre.should_quit ==> key == Key::Char('q') && (
        pre.current_screen is HomeScreen || pre.current_screen is MenuScreen
            || pre.current_screen is ViewAllProblemsScreen),
{
}

/// A key changes the kind of screen only by opening the form from the menu
/// or by leaving a screen: moving a cursor, quitting and typing stay on the
/// screen.
pub proof fn lemma_screen_changes_on_enter_and_escape(
    pre: App,
    key: Key,
    post: App,
    request: Request,
)
    requires
        key_handled(pre, key, post, request),
        post.current_screen.kind() != pre.current_screen.kind(),
    ensures
        key == Key::Enter || key == Key::Esc,
{
}

} // verus!
