use neodlp_bridge::text::{decimal_string, same_text, signed_decimal_string};

#[test]
fn decimal_matches_the_standard_rendering() {
    for n in [0u64, 1, 9, 10, 11, 99, 100, 101, 999, 1000, 53511, 65535, 1 << 32, u64::MAX] {
        assert_eq!(decimal_string(n), n.to_string());
    }
}

#[test]
fn signed_decimal_matches_the_standard_rendering() {
    for n in [0i64, 1, -1, 10, -10, 2147483647, -2147483648, i64::MAX, i64::MIN] {
        assert_eq!(signed_decimal_string(n), n.to_string());
    }
}

#[test]
fn texts_are_compared_by_their_characters() {
    assert!(same_text("", ""));
    assert!(same_text("queued", "queued"));
    assert!(!same_text("queued", "queue"));
    assert!(!same_text("a", "b"));
}
