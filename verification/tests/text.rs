use qarax::text::{i64_to_string, join_strings, replace_str, trimmed, u64_to_string};

#[test]
fn replace_matches_str_replace() {
    for (s, p, w) in [
        ("tcp:0.0.0.0:6000", "0.0.0.0", "10.1.1.1"),
        ("aaaa", "aa", "b"),
        ("abc", "x", "y"),
        ("0.0.0.00.0.0.0", "0.0.0.0", "-"),
        ("", "a", "b"),
    ] {
        assert_eq!(replace_str(s, p, w), s.replace(p, w));
    }
}

#[test]
fn decimal_rendering() {
    assert_eq!(u64_to_string(0), "0");
    assert_eq!(u64_to_string(18446744073709551615), "18446744073709551615");
    assert_eq!(i64_to_string(-9223372036854775808), "-9223372036854775808");
    assert_eq!(i64_to_string(42), "42");
}

#[test]
fn trimming_and_joining() {
    assert_eq!(trimmed("  a b \t\n"), "a b");
    assert_eq!(join_strings(&vec!["a".to_string(), "b".to_string(), "c".to_string()], ", "), "a, b, c");
    assert_eq!(join_strings(&vec![], ", "), "");
}
