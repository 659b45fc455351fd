use human_in_the_loop::text::{mention_message, thread_title};

#[test]
fn short_question_is_its_own_title() {
    assert_eq!(thread_title("What is the deploy window?"), "What is the deploy window?");
}

#[test]
fn empty_question_gives_empty_title() {
    assert_eq!(thread_title(""), "");
}

#[test]
fn title_of_exactly_one_hundred_chars_is_kept_whole() {
    let q: String = "a".repeat(100);
    assert_eq!(thread_title(&q), q);
}

#[test]
fn long_question_is_cut_to_first_hundred_chars() {
    let q: String = "b".repeat(101);
    let t = thread_title(&q);
    assert_eq!(t.chars().count(), 100);
    assert_eq!(t, "b".repeat(100));
}

#[test]
fn truncation_counts_characters_not_bytes() {
    // 150 two-byte characters: the title keeps the first 100 characters,
    // not the first 100 bytes.
    let q: String = "é".repeat(150);
    let t = thread_title(&q);
    assert_eq!(t.chars().count(), 100);
    assert_eq!(t, "é".repeat(100));
}

#[test]
fn mention_prefixes_the_body_with_the_user() {
    assert_eq!(mention_message("U123", "hello"), "<@U123> hello");
}

#[test]
fn mention_keeps_the_body_untruncated() {
    let long: String = "x".repeat(500);
    let m = mention_message("42", &long);
    assert_eq!(m, format!("<@42> {}", long));
}
