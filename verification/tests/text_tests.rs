use spotify_cli::text::{format_ms, push_clock, push_decimal, same_text, truncate};
use spotify_cli::url::{urlencoding_decode, urlencoding_encode};

#[test]
fn decimal_digits() {
    let mut s = String::new();
    push_decimal(&mut s, 0);
    assert_eq!(s, "0");
    let mut s = String::from("n=");
    push_decimal(&mut s, 18446744073709551615);
    assert_eq!(s, "n=18446744073709551615");
}

#[test]
fn clock_pads_seconds() {
    let mut s = String::new();
    push_clock(&mut s, 65);
    assert_eq!(s, "1:05");
    assert_eq!(format_ms(0), "0:00");
    assert_eq!(format_ms(59_999), "0:59");
    assert_eq!(format_ms(3_600_000), "60:00");
    assert_eq!(format_ms(754_321), "12:34");
}

#[test]
fn truncate_keeps_short_text() {
    assert_eq!(truncate("hello", 5), "hello");
    assert_eq!(truncate("", 0), "");
    assert_eq!(truncate("", 3), "");
}

#[test]
fn truncate_cuts_with_ellipsis() {
    assert_eq!(truncate("hello world", 5), "hell\u{2026}");
    assert_eq!(truncate("ab", 1), "\u{2026}");
    assert_eq!(truncate("ação rápida", 4), "açã\u{2026}");
}

#[test]
fn truncated_text_fits() {
    for max in 1..12 {
        let t = truncate("a fairly long track name", max);
        assert!(t.chars().count() <= max);
    }
}

#[test]
fn same_text_compares_characters() {
    assert!(same_text("off", "off"));
    assert!(!same_text("off", "of"));
    assert!(!same_text("off", "on!"));
    assert!(same_text("", ""));
}

#[test]
fn encode_leaves_unreserved() {
    assert_eq!(urlencoding_encode("AZaz09-_.~"), "AZaz09-_.~");
}

#[test]
fn encode_escapes_bytes_upper_case() {
    assert_eq!(urlencoding_encode("a b&c=d/é"), "a%20b%26c%3Dd%2F%C3%A9");
    assert_eq!(
        urlencoding_encode("http://localhost:8888/callback"),
        "http%3A%2F%2Flocalhost%3A8888%2Fcallback"
    );
    assert_eq!(urlencoding_encode(""), "");
}

#[test]
fn decode_handles_percent_and_plus() {
    assert_eq!(urlencoding_decode("a%20b+c"), "a b c");
    assert_eq!(urlencoding_decode("%41%62"), "Ab");
    assert_eq!(urlencoding_decode("plain"), "plain");
}

#[test]
fn decode_edge_cases() {
    // A byte decodes to the character with that code.
    assert_eq!(urlencoding_decode("%C3%A9"), "\u{c3}\u{a9}");
    // Not hexadecimal: dropped, the two characters are consumed.
    assert_eq!(urlencoding_decode("x%zzy"), "xy");
    // Missing digits count as '0'.
    assert_eq!(urlencoding_decode("%4"), "@");
    assert_eq!(urlencoding_decode("%"), "\u{0}");
    // A '+' sign before one digit is accepted, as u8::from_str_radix does.
    assert_eq!(urlencoding_decode("%+9"), "\u{9}");
}

#[test]
fn decode_of_encode_is_identity_on_ascii() {
    for s in ["", "abc", "a b+c", "%41", "key=value&x=1", "~!@#$%^&*()"] {
        assert_eq!(urlencoding_decode(&urlencoding_encode(s)), s);
    }
}

#[test]
fn decode_of_encode_differs_outside_ascii() {
    assert_ne!(urlencoding_decode(&urlencoding_encode("é")), "é");
}

#[test]
fn encoded_text_is_url_safe() {
    let e = urlencoding_encode("a b?c&d=é\u{1f3b5}");
    assert!(e.chars().all(|c| c.is_ascii_alphanumeric() || "-_.~%".contains(c)));
}
