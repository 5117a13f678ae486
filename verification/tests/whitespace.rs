use frostmark::text::{clean_whitespace, is_blank_str, is_whitespace};

#[test]
fn runs_of_white_space_collapse_to_one_space() {
    assert_eq!(clean_whitespace("  hello   world  \n"), " hello world ");
    assert_eq!(clean_whitespace("hello"), "hello");
    assert_eq!(clean_whitespace("a\tb\n\nc  d"), "a b c d");
    assert_eq!(clean_whitespace("a\u{a0}\u{3000}b"), "a b");
}

#[test]
fn line_feeds_alone_leave_no_space_at_the_ends() {
    assert_eq!(clean_whitespace("\nhello\n"), "hello");
    assert_eq!(clean_whitespace("\n\nhello world\n\n"), "hello world");
    assert_eq!(clean_whitespace("hello\n"), "hello");
}

#[test]
fn other_white_space_at_the_ends_leaves_one_space() {
    assert_eq!(clean_whitespace("Hello "), "Hello ");
    assert_eq!(clean_whitespace(" Hello"), " Hello");
    assert_eq!(clean_whitespace("\tx\t"), " x ");
    assert_eq!(clean_whitespace("x \n"), "x ");
    assert_eq!(clean_whitespace("\r\nx"), " x");
}

#[test]
fn a_leading_line_feed_leaves_no_space_in_front() {
    assert_eq!(clean_whitespace("\n x"), "x");
    assert_eq!(clean_whitespace("\n\t hello  world"), "hello world");
    assert_eq!(clean_whitespace("\n x \n"), "x ");
    assert_eq!(clean_whitespace(" \nx"), " x");
}

#[test]
fn texts_without_words() {
    assert_eq!(clean_whitespace(""), "");
    assert_eq!(clean_whitespace("\n"), "");
    assert_eq!(clean_whitespace("\n\n\n"), "");
    assert_eq!(clean_whitespace("   "), "  ");
    assert_eq!(clean_whitespace(" "), "  ");
    assert_eq!(clean_whitespace("\n "), " ");
    assert_eq!(clean_whitespace(" \n"), "  ");
}

#[test]
fn cleaning_keeps_other_characters() {
    assert_eq!(clean_whitespace("  h\u{e9}llo  w\u{f6}rld\u{1f600} "), " h\u{e9}llo w\u{f6}rld\u{1f600} ");
}

#[test]
fn white_space_is_what_std_calls_white_space() {
    let mut c = 0u32;
    while c <= 0x3100 {
        if let Some(ch) = char::from_u32(c) {
            assert_eq!(is_whitespace(ch), ch.is_whitespace(), "U+{:04X}", c);
        }
        c += 1;
    }
    assert!(!is_whitespace('\u{feff}'));
    assert!(!is_whitespace('\u{200b}'));
}

#[test]
fn blank_texts() {
    assert!(is_blank_str(""));
    assert!(is_blank_str(" \n\t "));
    assert!(!is_blank_str(" x "));
}
