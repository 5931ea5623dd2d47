use focus_text::report::{caret_line, decimal, extraction_report, report_lines, selection_line};

#[test]
fn decimal_of_small_numbers() {
    assert_eq!(decimal(0), "0");
    assert_eq!(decimal(7), "7");
    assert_eq!(decimal(10), "10");
    assert_eq!(decimal(105), "105");
}

#[test]
fn decimal_of_large_number() {
    assert_eq!(decimal(18446744073709551615), "18446744073709551615");
}

#[test]
fn selection_line_format() {
    assert_eq!(selection_line(0, "first"), "- 0\n first");
    assert_eq!(selection_line(12, "x"), "- 12\n x");
}

#[test]
fn caret_line_format() {
    assert_eq!(caret_line("at the caret"), "- Caret\n at the caret");
}

#[test]
fn report_has_one_line_per_range_then_caret() {
    let sel = vec![String::from("one"), String::from("two")];
    let lines = report_lines(&sel, &Some(String::from("here")));
    assert_eq!(
        lines,
        vec![
            String::from("- 0\n one"),
            String::from("- 1\n two"),
            String::from("- Caret\n here"),
        ],
    );
}

#[test]
fn report_without_caret_has_no_caret_line() {
    let sel = vec![String::from("only")];
    let lines = report_lines(&sel, &None);
    assert_eq!(lines, vec![String::from("- 0\n only")]);
}

#[test]
fn extraction_report_two_ranges_no_caret() {
    let raw = vec![String::from("text0"), String::from("text1")];
    let lines = extraction_report(&raw, false, None, 1000000);
    assert_eq!(lines, vec![String::from("- 0\n text0"), String::from("- 1\n text1")]);
}

#[test]
fn extraction_report_caret_line_comes_after_selection() {
    let raw = vec![String::from("sel")];
    let lines = extraction_report(&raw, true, Some(String::from("caret")), 1000000);
    assert_eq!(lines, vec![String::from("- 0\n sel"), String::from("- Caret\n caret")]);
}

#[test]
fn extraction_report_truncates_everything() {
    let raw = vec![String::from("abcdefgh")];
    let lines = extraction_report(&raw, true, Some(String::from("ijklmnop")), 3);
    assert_eq!(lines, vec![String::from("- 0\n abc"), String::from("- Caret\n ijk")]);
}

#[test]
fn extraction_report_inactive_caret_is_dropped() {
    let raw: Vec<String> = Vec::new();
    let lines = extraction_report(&raw, false, Some(String::from("stale")), 10);
    assert!(lines.is_empty());
}
