use svg2png::text::{decimal, strip_leading_separator};

#[test]
fn decimal_writes_single_digits() {
    let digits = ["0", "1", "2", "3", "4", "5", "6", "7", "8", "9"];
    for (n, digit) in digits.iter().enumerate() {
        assert_eq!(decimal(n as u16), *digit);
    }
}

#[test]
fn decimal_writes_status_codes() {
    assert_eq!(decimal(200), "200");
    assert_eq!(decimal(404), "404");
    assert_eq!(decimal(500), "500");
}

#[test]
fn decimal_keeps_inner_and_trailing_zeros() {
    assert_eq!(decimal(10), "10");
    assert_eq!(decimal(100), "100");
    assert_eq!(decimal(1001), "1001");
    assert_eq!(decimal(60000), "60000");
}

#[test]
fn decimal_writes_the_largest_number() {
    assert_eq!(decimal(65535), "65535");
}

#[test]
fn decimal_agrees_with_the_standard_formatter() {
    for n in 0..=u16::MAX {
        assert_eq!(decimal(n), n.to_string());
    }
}

#[test]
fn strip_drops_the_leading_slash() {
    assert_eq!(
        strip_leading_separator("/https://example.com/test.svg"),
        "https://example.com/test.svg"
    );
    assert_eq!(strip_leading_separator("/a"), "a");
}

#[test]
fn strip_drops_one_character_only() {
    assert_eq!(strip_leading_separator("//a/b"), "/a/b");
}

#[test]
fn strip_of_the_root_is_empty() {
    assert_eq!(strip_leading_separator("/"), "");
}

#[test]
fn strip_of_nothing_is_nothing() {
    assert_eq!(strip_leading_separator(""), "");
}

#[test]
fn strip_counts_characters_not_bytes() {
    assert_eq!(strip_leading_separator("/\u{e9}t\u{e9}.svg"), "\u{e9}t\u{e9}.svg");
    assert_eq!(strip_leading_separator("\u{e9}/x"), "/x");
}
