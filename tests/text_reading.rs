use book_exercises::text::{first_word, parse_guess};

#[test]
fn parse_guess_trims_white_space() {
    assert_eq!(parse_guess("  42 \n"), Some(42));
    assert_eq!(parse_guess("\t7\r\n"), Some(7));
    assert_eq!(parse_guess("\u{3000}8\u{a0}"), Some(8));
}

#[test]
fn parse_guess_reads_plain_digits() {
    assert_eq!(parse_guess("0"), Some(0));
    assert_eq!(parse_guess("007"), Some(7));
    assert_eq!(parse_guess("+5"), Some(5));
    assert_eq!(parse_guess("4294967295"), Some(u32::MAX));
}

#[test]
fn parse_guess_rejects_other_text() {
    assert_eq!(parse_guess(""), None);
    assert_eq!(parse_guess("-5"), None);
    assert_eq!(parse_guess("+"), None);
    assert_eq!(parse_guess("abc"), None);
    assert_eq!(parse_guess("12a"), None);
    assert_eq!(parse_guess("4294967296"), None);
    assert_eq!(parse_guess("\u{0663}"), None);
}

#[test]
fn first_word_stops_at_space() {
    assert_eq!(first_word("Hello there!"), "Hello");
    assert_eq!(first_word("single"), "single");
    assert_eq!(first_word(""), "");
    assert_eq!(first_word(" leading"), "");
    assert_eq!(first_word("caf\u{e9} au lait"), "caf\u{e9}");
    assert_eq!(first_word("tab\tis not a space"), "tab\tis");
}
