use problem_tracker::text::blank;
use problem_tracker::text::join;
use problem_tracker::text::rating_in_range;
use problem_tracker::text::rating_is_valid;

fn lines(parts: &[&str]) -> Vec<String> {
    parts.iter().map(|part| part.to_string()).collect()
}

#[test]
fn join_puts_the_separator_between_lines() {
    assert_eq!(join(&lines(&["two", "sum"]), "\n"), "two\nsum");
    assert_eq!(join(&lines(&["a", "b", "c"]), ", "), "a, b, c");
    assert_eq!(join(&lines(&["a", "b", "c"]), ""), "abc");
}

#[test]
fn join_of_one_line_is_the_line() {
    assert_eq!(join(&lines(&["two sum"]), "\n"), "two sum");
    assert_eq!(join(&lines(&[""]), "\n"), "");
}

#[test]
fn join_of_no_line_is_empty() {
    assert_eq!(join(&lines(&[]), "\n"), "");
}

#[test]
fn join_keeps_empty_lines() {
    assert_eq!(join(&lines(&["", "x", ""]), "-"), "-x-");
}

#[test]
fn blank_sees_through_whitespace() {
    assert!(blank(&lines(&[])));
    assert!(blank(&lines(&[""])));
    assert!(blank(&lines(&["   "])));
    assert!(blank(&lines(&[" \t", "  "])));
    assert!(blank(&lines(&["\u{3000}"])));
    assert!(!blank(&lines(&["a"])));
    assert!(!blank(&lines(&["  two sum  "])));
    assert!(!blank(&lines(&["", "x"])));
}

#[test]
fn rating_takes_one_to_five() {
    for text in ["1", "2", "3", "4", "5"] {
        assert!(rating_is_valid(&lines(&[text])));
    }
    assert!(rating_is_valid(&lines(&["  4 "])));
    assert!(rating_is_valid(&lines(&["+3"])));
    assert!(rating_is_valid(&lines(&["05"])));
}

#[test]
fn rating_refuses_everything_else() {
    for text in ["", "  ", "0", "6", "-1", "12", "3.5", "abc", "3a", "1 2", "128", "+", "-"] {
        assert!(!rating_is_valid(&lines(&[text])), "{:?}", text);
    }
}

#[test]
fn rating_reads_lines_without_a_break() {
    assert!(rating_is_valid(&lines(&["", "3"])));
    assert!(!rating_is_valid(&lines(&["1", "2"])));
}

#[test]
fn rating_in_range_is_one_to_five() {
    assert!(!rating_in_range(None));
    assert!(!rating_in_range(Some(0)));
    assert!(rating_in_range(Some(1)));
    assert!(rating_in_range(Some(5)));
    assert!(!rating_in_range(Some(6)));
    assert!(!rating_in_range(Some(-3)));
    assert!(!rating_in_range(Some(i8::MAX)));
    assert!(!rating_in_range(Some(i8::MIN)));
}
