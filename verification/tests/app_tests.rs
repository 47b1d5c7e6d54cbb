use problem_tracker::app::App;
use problem_tracker::keys::Key;
use problem_tracker::requests::Reply;
use problem_tracker::requests::Request;
use problem_tracker::screens::add_problem_screen::Awaiting;
use problem_tracker::screens::graph_screen::get_offset;
use problem_tracker::screens::graph_screen::GraphScreen;
use problem_tracker::screens::menu_screen::MenuScreen;
use problem_tracker::screens::view_all_problems_screen::ViewAllProblemsScreen;
use problem_tracker::screens::HomeScreen;
use problem_tracker::screens::InputSelector;
use problem_tracker::screens::Problem;
use problem_tracker::screens::Screen;
use problem_tracker::screens::ScreenAction;
use problem_tracker::screens::ScreenKind;
use problem_tracker::selection::Selection;

fn problem(name: &str, rating: &str, entry_date: &str) -> Problem {
    Problem { name: name.to_string(), rating: rating.to_string(), entry_date: entry_date.to_string() }
}

fn stored() -> Vec<Problem> {
    vec![
        problem("two sum", "2", "2025-03-04T10:00:00Z"),
        problem("lru cache", "4", "2025-03-04T11:00:00Z"),
        problem("word ladder", "5", "2025-07-01T09:30:00Z"),
    ]
}

fn selected(app: &App) -> Option<usize> {
    match &app.current_screen {
        Screen::MenuScreen(menu) => menu.commit(),
        Screen::ViewAllProblemsScreen(list) => list.list_state.selected(),
        _ => None,
    }
}

fn at_menu(index: usize) -> App {
    let mut app = App::new();
    assert_eq!(app.handle_events(Key::Enter), Request::Nothing);
    for _ in 0..index {
        assert_eq!(app.handle_events(Key::Down), Request::Nothing);
    }
    assert_eq!(app.current_screen.screen_kind(), ScreenKind::Menu);
    assert_eq!(selected(&app), Some(index));
    app
}

fn at_list(items: Vec<Problem>) -> App {
    let mut app = at_menu(1);
    assert_eq!(app.handle_events(Key::Enter), Request::LoadProblems);
    assert_eq!(app.handle_reply(Reply::Problems(items)), Request::Nothing);
    assert_eq!(app.current_screen.screen_kind(), ScreenKind::ViewAllProblems);
    app
}

fn at_graph(items: Vec<Problem>) -> App {
    let mut app = at_menu(2);
    assert_eq!(app.handle_events(Key::Enter), Request::LoadProblems);
    assert_eq!(app.handle_reply(Reply::Problems(items)), Request::Nothing);
    assert_eq!(app.current_screen.screen_kind(), ScreenKind::Graph);
    app
}

fn at_form() -> App {
    let mut app = at_menu(0);
    assert_eq!(app.handle_events(Key::Enter), Request::Nothing);
    assert_eq!(app.current_screen.screen_kind(), ScreenKind::AddProblem);
    app
}

#[test]
fn app_starts_at_home() {
    let app = App::new();
    assert_eq!(app.current_screen, Screen::HomeScreen(HomeScreen {}));
    assert!(!app.should_quit);
}

#[test]
fn fresh_menu_has_three_entries_and_the_cursor_on_the_first() {
    let menu = MenuScreen::default();
    assert_eq!(
        menu.menu_options,
        &["1. Add / Update Problem", "2. List All Problems ", "3. See Graph of Problems "]
    );
    assert_eq!(menu.commit(), Some(0));
}

#[test]
fn end_to_end_walk_through_the_menu() {
    let mut app = App::new();
    assert_eq!(app.handle_events(Key::Enter), Request::Nothing);
    assert_eq!(app.current_screen, Screen::MenuScreen(MenuScreen::default()));
    assert_eq!(selected(&app), Some(0));

    assert_eq!(app.handle_events(Key::Down), Request::Nothing);
    assert_eq!(selected(&app), Some(1));

    assert_eq!(app.handle_events(Key::Up), Request::Nothing);
    assert_eq!(selected(&app), Some(0));
    assert_eq!(app.handle_events(Key::Up), Request::Nothing);
    assert_eq!(selected(&app), Some(2));
    assert_eq!(app.handle_events(Key::Down), Request::Nothing);
    assert_eq!(selected(&app), Some(0));

    assert_eq!(app.handle_events(Key::Enter), Request::Nothing);
    assert_eq!(app.current_screen.screen_kind(), ScreenKind::AddProblem);

    assert_eq!(app.handle_events(Key::Esc), Request::Nothing);
    assert_eq!(app.current_screen, Screen::MenuScreen(MenuScreen::default()));
    assert!(!app.should_quit);
}

#[test]
fn up_twice_from_the_second_entry_wraps_to_the_last() {
    let mut app = at_menu(1);
    app.handle_events(Key::Up);
    assert_eq!(selected(&app), Some(0));
    app.handle_events(Key::Up);
    assert_eq!(selected(&app), Some(2));
    app.handle_events(Key::Down);
    assert_eq!(selected(&app), Some(0));
}

#[test]
fn first_entry_opens_the_form_whatever_came_before() {
    let mut wandered = at_menu(0);
    for key in [Key::Down, Key::Down, Key::Down, Key::Up, Key::Up, Key::Down, Key::Tab, Key::Other, Key::Down] {
        wandered.handle_events(key);
    }
    let mut returned = at_list(stored());
    returned.handle_events(Key::Esc);
    let mut revisited = at_form();
    revisited.handle_events(Key::Char('x'));
    revisited.handle_events(Key::Esc);
    for mut app in [at_menu(0), wandered, returned, revisited] {
        assert_eq!(selected(&app), Some(0));
        assert_eq!(app.handle_events(Key::Enter), Request::Nothing);
        match &app.current_screen {
            Screen::AddProblemScreen(form) => {
                assert_eq!(form.problem_name, vec![String::new()]);
                assert_eq!(form.problem_rating, vec![String::new()]);
                assert_eq!(form.input_mode, InputSelector::ProblemName);
                assert_eq!(form.awaiting, Awaiting::Nothing);
                assert!(!form.confirm_popup);
                assert!(!form.incorrect_name && !form.incorrect_rating);
                assert!(!form.successful_problem_added && !form.failed_to_add_problem);
                assert!(!form.sucessfully_updated_problem && !form.store_failed);
            }
            other => panic!("{:?}", other),
        }
    }
}

#[test]
fn form_is_stamped_with_a_time_that_the_heatmap_reads() {
    let app = at_form();
    let entry_date = match &app.current_screen {
        Screen::AddProblemScreen(form) => form.entry_date.clone(),
        other => panic!("{:?}", other),
    };
    assert!(!entry_date.is_empty());
    let graph = GraphScreen::new(&vec![problem("now", "1", &entry_date)], 2025).unwrap();
    assert_eq!(graph.days.len(), 1);
    assert!(1 <= graph.days[0] && graph.days[0] <= 366);
}

#[test]
fn second_entry_opens_the_list_over_the_stored_problems() {
    let app = at_list(stored());
    assert_eq!(
        app.current_screen,
        Screen::ViewAllProblemsScreen(ViewAllProblemsScreen {
            items: stored(),
            list_state: Selection { selected: Some(0) },
        })
    );
}

#[test]
fn third_entry_opens_the_heatmap_of_the_stored_problems() {
    let app = at_graph(stored());
    match &app.current_screen {
        Screen::GraphScreen(graph) => {
            assert_eq!(graph.days, vec![63, 63, 182]);
            assert_eq!(Some(graph.offset as u32), get_offset(graph.current_year));
            assert!(graph.current_year >= 2024);
        }
        other => panic!("{:?}", other),
    }
}

#[test]
fn menu_waits_for_the_problems() {
    for index in [1, 2] {
        let mut app = at_menu(index);
        let before = app.clone();
        assert_eq!(app.handle_events(Key::Enter), Request::LoadProblems);
        assert_eq!(app, before);
        assert_eq!(app.handle_reply(Reply::Failed), Request::Nothing);
        assert_eq!(app, before);
    }
}

#[test]
fn problems_open_nothing_unless_the_menu_asked() {
    let mut starts = vec![App::new(), at_menu(0), at_list(vec![]), at_graph(vec![]), at_form()];
    for app in starts.iter_mut() {
        let before = app.clone();
        assert_eq!(app.handle_reply(Reply::Problems(stored())), Request::Nothing);
        assert_eq!(*app, before);
    }
}

#[test]
fn every_sub_screen_leaves_for_a_fresh_menu() {
    for mut app in [at_form(), at_list(stored()), at_graph(stored())] {
        assert_eq!(app.handle_events(Key::Esc), Request::Nothing);
        assert_eq!(app.current_screen, Screen::MenuScreen(MenuScreen::default()));
        assert!(!app.should_quit);
    }
}

#[test]
fn menu_leaves_for_home() {
    let mut app = at_menu(2);
    assert_eq!(app.handle_events(Key::Esc), Request::Nothing);
    assert_eq!(app.current_screen, Screen::HomeScreen(HomeScreen {}));
    assert_eq!(app.handle_events(Key::Esc), Request::Nothing);
    assert_eq!(app.current_screen, Screen::HomeScreen(HomeScreen {}));
}

#[test]
fn quit_raises_the_flag_and_keeps_the_screen() {
    for mut app in [App::new(), at_menu(1), at_list(stored())] {
        let screen = app.current_screen.clone();
        assert_eq!(app.handle_events(Key::Char('q')), Request::Nothing);
        assert!(app.should_quit);
        assert_eq!(app.current_screen, screen);
    }
}

#[test]
fn graph_does_not_quit() {
    let mut app = at_graph(stored());
    let before = app.clone();
    assert_eq!(app.handle_events(Key::Char('q')), Request::Nothing);
    assert_eq!(app, before);
}

#[test]
fn form_types_the_letter_q() {
    let mut app = at_form();
    assert_eq!(app.handle_events(Key::Char('q')), Request::Edit(InputSelector::ProblemName));
    assert!(!app.should_quit);
    assert_eq!(app.handle_reply(Reply::Edited(vec!["q".to_string()])), Request::Nothing);
    match &app.current_screen {
        Screen::AddProblemScreen(form) => assert_eq!(form.problem_name, vec!["q".to_string()]),
        other => panic!("{:?}", other),
    }
}

#[test]
fn form_adds_through_the_app() {
    let mut app = at_form();
    assert_eq!(app.handle_events(Key::Char('x')), Request::Edit(InputSelector::ProblemName));
    assert_eq!(app.handle_reply(Reply::Edited(vec!["two sum".to_string()])), Request::Nothing);
    assert_eq!(app.handle_events(Key::Tab), Request::Nothing);
    assert_eq!(app.handle_events(Key::Char('3')), Request::Edit(InputSelector::ProblemRating));
    assert_eq!(app.handle_reply(Reply::Edited(vec!["3".to_string()])), Request::Nothing);
    assert_eq!(app.handle_events(Key::Enter), Request::Nothing);
    assert_eq!(app.handle_events(Key::Char('A')), Request::Exists("two sum".to_string()));
    let request = app.handle_reply(Reply::Exists(false));
    let entry_date = match &app.current_screen {
        Screen::AddProblemScreen(form) => form.entry_date.clone(),
        other => panic!("{:?}", other),
    };
    assert_eq!(request, Request::Insert(problem("two sum", "3", &entry_date)));
    assert_eq!(app.handle_reply(Reply::Written), Request::Nothing);
    match &app.current_screen {
        Screen::AddProblemScreen(form) => assert!(form.successful_problem_added),
        other => panic!("{:?}", other),
    }
}

#[test]
fn list_cursor_goes_round_the_problems() {
    let mut app = at_list(stored());
    app.handle_events(Key::Up);
    assert_eq!(selected(&app), Some(2));
    app.handle_events(Key::Down);
    assert_eq!(selected(&app), Some(0));
    app.handle_events(Key::Down);
    assert_eq!(selected(&app), Some(1));
    let before = app.clone();
    assert_eq!(app.handle_events(Key::Enter), Request::Nothing);
    assert_eq!(app, before);
}

#[test]
fn list_without_problems_keeps_its_cursor() {
    let mut app = at_list(vec![]);
    let before = app.clone();
    assert_eq!(app.handle_events(Key::Down), Request::Nothing);
    assert_eq!(app.handle_events(Key::Up), Request::Nothing);
    assert_eq!(app, before);
    assert_eq!(selected(&app), Some(0));
}

#[test]
fn list_actions_reach_no_screen_without_a_list() {
    for mut app in [App::new(), at_form(), at_graph(stored())] {
        let before = app.clone();
        for action in [ScreenAction::MenuNext, ScreenAction::MenuPrev, ScreenAction::MenuSelect] {
            assert_eq!(app.handle_screen_action(action), Request::Nothing);
            assert_eq!(app, before);
        }
        app.move_menu_selection(1);
        assert_eq!(app.select_menu_item(), Request::Nothing);
        assert_eq!(app, before);
    }
}

#[test]
fn switch_screen_menu_ignores_other_indices() {
    for index in [-1, 3, 4, i8::MAX, i8::MIN] {
        let mut app = at_menu(1);
        let before = app.clone();
        app.switch_screen_menu(index, stored());
        assert_eq!(app, before);
    }
}

#[test]
fn switch_screen_menu_opens_from_any_screen() {
    let mut app = App::new();
    app.switch_screen_menu(1, stored());
    assert_eq!(app.current_screen.screen_kind(), ScreenKind::ViewAllProblems);
    app.switch_screen_menu(2, stored());
    assert_eq!(app.current_screen.screen_kind(), ScreenKind::Graph);
    app.switch_screen_menu(0, stored());
    assert_eq!(app.current_screen.screen_kind(), ScreenKind::AddProblem);
}

#[test]
fn quit_and_switch_by_hand() {
    let mut app = App::new();
    app.switch_screens();
    assert_eq!(app.current_screen, Screen::MenuScreen(MenuScreen::default()));
    app.move_menu_selection(-1);
    assert_eq!(selected(&app), Some(2));
    app.move_menu_selection(5);
    assert_eq!(selected(&app), Some(1));
    app.quit();
    assert!(app.should_quit);
    assert_eq!(selected(&app), Some(1));
    app.switch_screens();
    assert_eq!(app.current_screen, Screen::HomeScreen(HomeScreen {}));
    assert!(app.should_quit);
}
