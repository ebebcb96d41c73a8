use api_util::text::{decimal_text, same_text, Journal};

#[test]
fn decimal_texts_match_std() {
    for n in [0i64, 7, 9, 10, 99, 100, 12345, -1, -10, i64::MAX, i64::MIN] {
        assert_eq!(decimal_text(n), n.to_string());
    }
}

#[test]
fn texts_compare_by_content() {
    assert!(same_text("", ""));
    assert!(same_text("余额不足", "余额不足"));
    assert!(!same_text("余额不足", "权限不足"));
    assert!(!same_text("a", "ab"));
}

#[test]
fn journal_keeps_lines_in_order() {
    let mut journal = Journal::new();
    assert!(journal.lines.is_empty());
    journal.record("first".to_string());
    journal.record("second".to_string());
    assert_eq!(journal.lines, vec!["first".to_string(), "second".to_string()]);
}
