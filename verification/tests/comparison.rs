use cargo_service_message::comparison::find_comparison;

#[test]
fn test_compare() {
    let output = r#"
        [tests.test_a_failure_fails] thread 'tests::test_a_failure_fails' panicked at 'assertion failed: `(left == right)`
  left: `"red"`,
 right: `"green"`', src/bin/cargo-service-message.rs:194:9
note: run with `RUST_BACKTRACE=1` environment variable to display a backtrace
        "#;

    assert_eq!(Some(("\"red\"", "\"green\"")), find_comparison(output));
}

#[test]
fn text_without_markers_holds_no_comparison() {
    assert_eq!(find_comparison(""), None);
    assert_eq!(find_comparison("thread 'main' panicked at 'boom', src/lib.rs:1:1"), None);
}

#[test]
fn both_sides_are_needed() {
    assert_eq!(find_comparison("left: `1`, rest"), None);
    assert_eq!(find_comparison("right: `2`', rest"), None);
    assert_eq!(find_comparison("left: `1`, right: `2`' no space after the comma,"), None);
    assert_eq!(find_comparison("left: `1` right: `2`', "), None);
    assert_eq!(find_comparison("left: `1` or `3`, right: `2`', "), Some(("1` or `3", "2")));
}

#[test]
fn the_markers_are_matched_letter_for_letter() {
    assert_eq!(find_comparison("Left: `1`, right: `2`', "), None);
    assert_eq!(find_comparison("left:`1`, right: `2`', "), None);
    assert_eq!(find_comparison("left: `1`, right: `2`', "), Some(("1", "2")));
}

#[test]
fn the_first_markers_count() {
    assert_eq!(
        find_comparison("left: `a`, left: `b`, right: `c`', right: `d`', "),
        Some(("a", "c"))
    );
    assert_eq!(find_comparison("right: `é`', left: `ü`, "), Some(("ü", "é")));
}

#[test]
fn values_may_be_empty() {
    assert_eq!(find_comparison("left: ``, right: ``', "), Some(("", "")));
}

#[test]
fn an_end_mark_inside_its_marker_gives_no_comparison() {
    assert_eq!(find_comparison("left: `, right: `2`', "), None);
    assert_eq!(find_comparison("left: `1`, right: `', "), None);
}
