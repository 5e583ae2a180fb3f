use token_monitor::text::{
    i64_to_decimal, normalize_base_url, strip_bearer, trim, u64_to_decimal, DEFAULT_BASE_URL,
};

#[test]
fn trim_removes_surrounding_whitespace() {
    assert_eq!(trim("  https://example.com \t\n"), "https://example.com");
    assert_eq!(trim("no-space"), "no-space");
    assert_eq!(trim(" a b "), "a b");
    assert_eq!(trim("\u{3000}x\u{00a0}"), "x");
    assert_eq!(trim("   "), "");
    assert_eq!(trim(""), "");
}

#[test]
fn blank_base_url_falls_back_to_default() {
    assert_eq!(normalize_base_url(""), DEFAULT_BASE_URL);
    assert_eq!(normalize_base_url("  \t "), "https://fufei.mossx.ai");
}

#[test]
fn typed_base_url_is_trimmed() {
    assert_eq!(normalize_base_url(" https://api.example.org "), "https://api.example.org");
    assert_eq!(normalize_base_url("http://localhost:8080"), "http://localhost:8080");
}

#[test]
fn bearer_prefix_is_stripped_once() {
    assert_eq!(strip_bearer("Bearer abc.def"), "abc.def");
    assert_eq!(strip_bearer("bearer abc.def"), "abc.def");
    assert_eq!(strip_bearer("Bearer bearer x"), "bearer x");
    assert_eq!(strip_bearer("abc.def"), "abc.def");
    assert_eq!(strip_bearer("BEARER abc"), "BEARER abc");
    assert_eq!(strip_bearer("Bearer"), "Bearer");
    assert_eq!(strip_bearer("Bearer "), "");
    assert_eq!(strip_bearer(""), "");
}

#[test]
fn unsigned_decimal_rendering() {
    assert_eq!(u64_to_decimal(0), "0");
    assert_eq!(u64_to_decimal(7), "7");
    assert_eq!(u64_to_decimal(305), "305");
    assert_eq!(u64_to_decimal(u64::MAX), u64::MAX.to_string());
}

#[test]
fn signed_decimal_rendering() {
    assert_eq!(i64_to_decimal(0), "0");
    assert_eq!(i64_to_decimal(-42), "-42");
    assert_eq!(i64_to_decimal(1001), "1001");
    assert_eq!(i64_to_decimal(i64::MIN), i64::MIN.to_string());
    assert_eq!(i64_to_decimal(i64::MAX), i64::MAX.to_string());
}
