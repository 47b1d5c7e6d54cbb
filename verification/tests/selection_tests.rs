use problem_tracker::selection::wrap_index;
use problem_tracker::selection::Selection;

#[test]
fn wrap_index_steps_forward_inside_the_list() {
    assert_eq!(wrap_index(0, 1, 3), 1);
    assert_eq!(wrap_index(1, 1, 3), 2);
}

#[test]
fn wrap_index_wraps_past_the_end() {
    assert_eq!(wrap_index(2, 1, 3), 0);
    assert_eq!(wrap_index(4, 1, 5), 0);
}

#[test]
fn wrap_index_wraps_before_the_start() {
    assert_eq!(wrap_index(0, -1, 3), 2);
    assert_eq!(wrap_index(0, -1, 1), 0);
    assert_eq!(wrap_index(0, -1, 10), 9);
}

#[test]
fn wrap_index_takes_long_strides() {
    assert_eq!(wrap_index(1, 7, 3), 2);
    assert_eq!(wrap_index(1, -7, 3), 0);
    assert_eq!(wrap_index(0, -3, 3), 0);
    assert_eq!(wrap_index(2, 300, 3), 2);
}

#[test]
fn wrap_index_takes_the_extremes() {
    let len = usize::MAX;
    assert_eq!(wrap_index(len - 1, 1, len), 0);
    assert_eq!(wrap_index(0, -1, len), len - 1);
    assert!(wrap_index(5, isize::MIN, 7) < 7);
    assert!(wrap_index(5, isize::MAX, 7) < 7);
    assert_eq!(wrap_index(usize::MAX, 1, usize::MAX), 1);
}

#[test]
fn back_from_first_is_last_for_every_length() {
    for len in 1..200usize {
        assert_eq!(wrap_index(0, -1, len), len - 1);
    }
}

#[test]
fn full_circle_returns_to_the_start() {
    for len in 1..20usize {
        for start in 0..len {
            let mut cursor = Selection { selected: Some(start) };
            for _ in 0..len {
                cursor.move_by(1, len);
            }
            assert_eq!(cursor.selected(), Some(start));
        }
    }
}

#[test]
fn back_undoes_forward() {
    for len in 1..20usize {
        for start in 0..len {
            let mut cursor = Selection { selected: Some(start) };
            cursor.move_by(1, len);
            cursor.move_by(-1, len);
            assert_eq!(cursor.selected(), Some(start));
            cursor.move_by(-1, len);
            cursor.move_by(1, len);
            assert_eq!(cursor.selected(), Some(start));
        }
    }
}

#[test]
fn new_cursor_stands_on_the_first_entry() {
    assert_eq!(Selection::new().selected(), Some(0));
}

#[test]
fn empty_cursor_falls_on_the_first_entry() {
    let mut cursor = Selection { selected: None };
    cursor.move_by(1, 4);
    assert_eq!(cursor.selected(), Some(0));
    let mut cursor = Selection { selected: None };
    cursor.move_by(-1, 4);
    assert_eq!(cursor.selected(), Some(0));
}

#[test]
fn select_sets_the_cursor() {
    let mut cursor = Selection::new();
    cursor.select(Some(2));
    assert_eq!(cursor.selected(), Some(2));
    cursor.select(None);
    assert_eq!(cursor.selected(), None);
}
