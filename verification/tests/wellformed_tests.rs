use problem_tracker::app::App;
use problem_tracker::screens::graph_screen::GraphScreen;
use problem_tracker::screens::menu_screen::MenuScreen;
use problem_tracker::screens::view_all_problems_screen::ViewAllProblemsScreen;
use problem_tracker::screens::Action;
use problem_tracker::screens::InputSelector;
use problem_tracker::screens::Problem;
use problem_tracker::screens::Screen;
use problem_tracker::selection::Selection;

fn one_problem() -> Vec<Problem> {
    vec![Problem {
        name: "two sum".to_string(),
        rating: "2".to_string(),
        entry_date: "2025-03-04T10:00:00Z".to_string(),
    }]
}

#[test]
fn defaults_are_the_starting_values() {
    assert_eq!(Action::default(), Action::NoOp);
    assert_eq!(InputSelector::default(), InputSelector::ProblemName);
    assert!(MenuScreen::default().is_well_formed());
    assert!(App::new().is_well_formed());
}

#[test]
fn menu_is_well_formed_with_its_cursor_on_an_entry() {
    let mut menu = MenuScreen::default();
    for index in 0..3 {
        menu.menu_state.select(Some(index));
        assert!(menu.is_well_formed());
    }
    menu.menu_state.select(Some(3));
    assert!(!menu.is_well_formed());
    menu.menu_state.select(None);
    assert!(!menu.is_well_formed());
    let empty = MenuScreen { menu_state: Selection::new(), menu_options: &[] };
    assert!(!empty.is_well_formed());
}

#[test]
fn list_is_well_formed_with_its_cursor_on_a_problem() {
    assert!(ViewAllProblemsScreen::new(vec![]).is_well_formed());
    assert!(ViewAllProblemsScreen::new(one_problem()).is_well_formed());
    let mut list = ViewAllProblemsScreen::new(one_problem());
    list.list_state.select(Some(1));
    assert!(!list.is_well_formed());
    list.list_state.select(None);
    assert!(!list.is_well_formed());
}

#[test]
fn graph_is_well_formed_with_a_weekday_offset() {
    for offset in 0..=6 {
        let graph = GraphScreen { days: vec![], offset, current_year: 2025 };
        assert!(graph.is_well_formed());
        assert!(Screen::GraphScreen(graph).is_well_formed());
    }
    for offset in [-1, 7, i32::MAX, i32::MIN] {
        let graph = GraphScreen { days: vec![], offset, current_year: 2025 };
        assert!(!graph.is_well_formed());
        let app = App { should_quit: false, current_screen: Screen::GraphScreen(graph) };
        assert!(!app.is_well_formed());
    }
}

#[test]
fn menu_cursor_moves_by_any_stride() {
    let mut menu = MenuScreen::default();
    menu.move_selection(4);
    assert_eq!(menu.commit(), Some(1));
    menu.move_selection(-2);
    assert_eq!(menu.commit(), Some(2));
    menu.move_selection(0);
    assert_eq!(menu.commit(), Some(2));
}

#[test]
fn list_cursor_moves_by_any_stride() {
    let mut problems = one_problem();
    problems.extend(one_problem());
    let mut list = ViewAllProblemsScreen::new(problems);
    list.move_selection(3);
    assert_eq!(list.list_state.selected(), Some(1));
    list.move_selection(-1);
    assert_eq!(list.list_state.selected(), Some(0));
}
