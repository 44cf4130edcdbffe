use honeypot::text::{contains_text, piece_after_last, piece_before_first, same_text};

#[test]
fn after_last_dot_takes_the_extension() {
    assert_eq!(piece_after_last("https://cdn.example.com/a.png?size=1", '.'), "png?size=1");
    assert_eq!(piece_after_last("no-dot-here", '.'), "no-dot-here");
    assert_eq!(piece_after_last("ends.", '.'), "");
}

#[test]
fn before_first_question_mark_cuts_the_query() {
    assert_eq!(piece_before_first("png?size=1?x", '?'), "png");
    assert_eq!(piece_before_first("jpeg", '?'), "jpeg");
    assert_eq!(piece_before_first("?start", '?'), "");
}

#[test]
fn substring_search() {
    assert!(contains_text("my answer is aB3xYz!", "aB3xYz"));
    assert!(!contains_text("my answer is ab3xyz", "aB3xYz"));
    assert!(contains_text("anything", ""));
    assert!(!contains_text("ab", "abc"));
    assert!(contains_text("abc", "abc"));
}

#[test]
fn text_equality() {
    assert!(same_text("image/png", "image/png"));
    assert!(!same_text("image/png", "image/PNG"));
    assert!(!same_text("image/pn", "image/png"));
}
