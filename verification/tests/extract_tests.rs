use focus_text::extract::{extract_caret, extract_selection, truncate_chars};

#[test]
fn truncate_leaves_short_text_alone() {
    assert_eq!(truncate_chars("hi", 3), "hi");
    assert_eq!(truncate_chars("abc", 3), "abc");
}

#[test]
fn truncate_cuts_long_text_to_the_bound() {
    assert_eq!(truncate_chars("hello world", 5), "hello");
    assert_eq!(truncate_chars("hello", 0), "");
}

#[test]
fn truncate_counts_characters_not_bytes() {
    assert_eq!(truncate_chars("äöü", 2), "äö");
}

#[test]
fn truncate_of_empty_is_empty() {
    assert_eq!(truncate_chars("", 5), "");
}

#[test]
fn selection_is_truncated_per_range() {
    let raw = vec![String::from("abcdef"), String::from("xy")];
    let sel = extract_selection(&raw, 4);
    assert_eq!(sel, vec![String::from("abcd"), String::from("xy")]);
    for t in &sel {
        assert!(t.chars().count() <= 4);
    }
}

#[test]
fn selection_keeps_order_and_length() {
    let raw = vec![String::from("a"), String::from("b"), String::from("c")];
    let sel = extract_selection(&raw, 10);
    assert_eq!(sel, raw);
}

#[test]
fn empty_selection_stays_empty() {
    let raw: Vec<String> = Vec::new();
    let sel = extract_selection(&raw, 10);
    assert!(sel.is_empty());
}

#[test]
fn caret_absent_when_flag_false_even_with_range() {
    let r = extract_caret(false, Some(String::from("text")), 100);
    assert_eq!(r, None);
}

#[test]
fn caret_absent_when_flag_true_but_no_range() {
    let r = extract_caret(true, None, 100);
    assert_eq!(r, None);
}

#[test]
fn caret_present_when_flag_true_and_range_present() {
    let r = extract_caret(true, Some(String::from("caret text")), 100);
    assert_eq!(r, Some(String::from("caret text")));
}

#[test]
fn caret_text_is_truncated() {
    let r = extract_caret(true, Some(String::from("caret text")), 5);
    assert_eq!(r, Some(String::from("caret")));
}
