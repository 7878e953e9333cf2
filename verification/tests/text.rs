use duners::text::same_text;

#[test]
fn texts_compare_by_their_characters() {
    assert!(same_text("", ""));
    assert!(same_text("QUERY_STATE_FAILED", "QUERY_STATE_FAILED"));
    assert!(same_text("zażółć", "zażółć"));
    assert!(!same_text("a", ""));
    assert!(!same_text("", "a"));
    assert!(!same_text("abc", "abd"));
    assert!(!same_text("abc", "abcd"));
    assert!(!same_text("ABC", "abc"));
    assert!(!same_text("é", "e"));
}
