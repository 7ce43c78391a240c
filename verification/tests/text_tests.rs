use payme_router::text::{decimal, escape_ascii};

#[test]
fn decimal_renders_like_std() {
    for value in [0i64, 7, 10, 99, 100, 12345, -1, -10, -987, i64::MAX, i64::MIN, i64::MIN + 1] {
        assert_eq!(decimal(value), value.to_string());
    }
}

#[test]
fn decimal_reads_back_on_values() {
    for value in [-20i64, -1, 0, 1, 19, 20, 1_000_000] {
        assert_eq!(decimal(value).parse::<i64>(), Ok(value));
    }
    assert_ne!(decimal(12), decimal(21));
}

#[test]
fn escape_renders_like_std() {
    let all: Vec<u8> = (0..=255u8).collect();
    assert_eq!(escape_ascii(&all), all.escape_ascii().to_string());
    assert_eq!(escape_ascii(b"a\t\"\\\x00\xff"), "a\\t\\\"\\\\\\x00\\xff");
    assert_eq!(escape_ascii(b""), "");
}

#[test]
fn escaped_text_is_printable() {
    let all: Vec<u8> = (0..=255u8).collect();
    assert!(escape_ascii(&all).chars().all(|c| (' '..='~').contains(&c)));
}
