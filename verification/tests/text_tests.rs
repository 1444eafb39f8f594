use chess_sessions::text::is_san_shaped;
use chess_sessions::text::marks_capture;
use chess_sessions::text::parse_mention;
use chess_sessions::text::scrub_key;
use chess_sessions::text::u64_to_dec;

#[test]
fn decimal_rendering() {
    assert_eq!(u64_to_dec(0), "0");
    assert_eq!(u64_to_dec(7), "7");
    assert_eq!(u64_to_dec(10), "10");
    assert_eq!(u64_to_dec(90210), "90210");
    assert_eq!(u64_to_dec(u64::MAX), "18446744073709551615");
}

#[test]
fn mentions_with_and_without_bang() {
    assert_eq!(parse_mention("<@123>"), Some(123));
    assert_eq!(parse_mention("<@!123>"), Some(123));
    assert_eq!(parse_mention("<@18446744073709551615>"), Some(u64::MAX));
}

#[test]
fn mentions_rejected() {
    assert_eq!(parse_mention("123"), None);
    assert_eq!(parse_mention("<@>"), None);
    assert_eq!(parse_mention("<@!>"), None);
    assert_eq!(parse_mention("<@12a3>"), None);
    assert_eq!(parse_mention("<#123>"), None);
    assert_eq!(parse_mention("<@123"), None);
    // One past the largest id.
    assert_eq!(parse_mention("<@18446744073709551616>"), None);
}

#[test]
fn scrubbing_strips_mention_punctuation() {
    assert_eq!(scrub_key("chess. games.<allow>!"), "chess.games.allow");
    assert_eq!(scrub_key("<@77>"), "@77");
    assert_eq!(scrub_key("plain"), "plain");
    assert_eq!(scrub_key(""), "");
}

#[test]
fn capture_marker() {
    assert!(marks_capture("exd4"));
    assert!(!marks_capture("e4"));
    assert!(!marks_capture(""));
}

#[test]
fn move_shapes_accepted() {
    for good in [
        "e4",
        "exd4",
        "xd4",
        "Nc3",
        "Nb1c3",
        "Nbc3",
        "N1c3",
        "Nb1xc3",
        "Qh4#",
        "Nc3+",
        "a8=Q",
        "bxa8=N+",
        "exd6 e.p.",
        "O-O",
        "O-O-O",
    ] {
        assert!(is_san_shaped(good), "should accept {good}");
    }
}

#[test]
fn move_shapes_rejected() {
    for bad in [
        "",
        "hello",
        "e9",
        "i4",
        "e4x",
        "O-O-O-O",
        "Ke",
        "=Q",
        "4e",
        "e4 e.p",
        "Pe4",
        "e4++",
    ] {
        assert!(!is_san_shaped(bad), "should reject {bad}");
    }
}
