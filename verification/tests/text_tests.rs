use reading_app_web::reading_app::ReadingApp;
use reading_app_web::text::{count_words, is_emoji, is_whitespace, preview, strip_emoji};

#[test]
fn emoji_ranges_are_detected() {
    assert!(is_emoji('\u{2600}'));
    assert!(is_emoji('\u{27BF}'));
    assert!(is_emoji('\u{1F300}'));
    assert!(is_emoji('\u{1F600}'));
    assert!(is_emoji('\u{1FAFF}'));
    assert!(!is_emoji('\u{25FF}'));
    assert!(!is_emoji('\u{27C0}'));
    assert!(!is_emoji('\u{1F2FF}'));
    assert!(!is_emoji('\u{1FB00}'));
    assert!(!is_emoji('a'));
}

#[test]
fn strip_emoji_keeps_other_characters() {
    assert_eq!(strip_emoji("Serving \u{1F680} on http://127.0.0.1:8080 \u{2705}\n"), "Serving  on http://127.0.0.1:8080 \n");
    assert_eq!(strip_emoji("plain line\n"), "plain line\n");
    assert_eq!(strip_emoji(""), "");
    assert_eq!(strip_emoji("\u{1F600}\u{2600}"), "");
}

#[test]
fn strip_emoji_is_idempotent() {
    let once = strip_emoji("a\u{1F41B}b\u{2728}c é");
    assert_eq!(strip_emoji(&once), once);
    assert_eq!(once, "abc é");
}

#[test]
fn whitespace_matches_std() {
    for code in 0u32..=0x10FFFF {
        if let Some(c) = char::from_u32(code) {
            assert_eq!(is_whitespace(c), c.is_whitespace(), "code {code:#x}");
        }
    }
}

#[test]
fn word_count_matches_split_whitespace() {
    let samples = [
        "",
        "   ",
        "one",
        "one two  three",
        "  leading and trailing  ",
        "tabs\tand\nnewlines\r\nmixed",
        "non\u{00A0}breaking\u{3000}spaces",
    ];
    for s in samples {
        assert_eq!(count_words(s), s.split_whitespace().count(), "sample {s:?}");
        assert_eq!(ReadingApp::calculate_word_count(s), s.split_whitespace().count());
    }
    assert_eq!(count_words("one two  three"), 3);
}

#[test]
fn preview_truncates_long_content() {
    assert_eq!(preview("abcdef", 3), "abc...");
    assert_eq!(preview("abc", 3), "abc");
    assert_eq!(preview("ab", 3), "ab");
    assert_eq!(preview("", 0), "");
    assert_eq!(preview("a", 0), "...");
    assert_eq!(preview("héllo wörld", 5), "héllo...");
    let long: String = "x".repeat(200);
    let p = ReadingApp::article_preview(&long, 140);
    assert_eq!(p.chars().count(), 143);
    assert!(p.ends_with("..."));
}
