use rust_knowledge::dump::{preview, PREVIEW_BYTES};

#[test]
fn short_text_is_shown_whole() {
    assert_eq!(preview("Runs the work."), "Runs the work.");
    let exact = "a".repeat(PREVIEW_BYTES);
    assert_eq!(preview(&exact), exact);
}

#[test]
fn long_text_is_cut_at_the_byte_limit() {
    let long = "a".repeat(1300);
    assert_eq!(preview(&long), format!("{}...", "a".repeat(1200)));
}

#[test]
fn cut_drops_trailing_whitespace() {
    let text = format!("{}  {}", "a".repeat(1198), "b".repeat(200));
    assert_eq!(preview(&text), format!("{}...", "a".repeat(1198)));
}

#[test]
fn cut_keeps_whole_characters() {
    let text = format!("a{}", "é".repeat(700));
    assert_eq!(preview(&text), format!("a{}...", "é".repeat(599)));
}
