use orca_auth::decimal::parse_decimal;
use orca_auth::form::{encode, find_param, form_body};

#[test]
fn encode_escapes_reserved_bytes() {
    assert_eq!(encode("a b&c"), "a+b%26c");
    assert_eq!(encode("http://127.0.0.1:7878"), "http%3A%2F%2F127.0.0.1%3A7878");
    assert_eq!(encode("Az09*-._"), "Az09*-._");
    assert_eq!(encode(""), "");
}

#[test]
fn form_body_joins_fields() {
    let pairs = vec![
        ("grant_type".to_string(), "password".to_string()),
        ("username".to_string(), "u s".to_string()),
    ];
    assert_eq!(form_body(&pairs), "grant_type=password&username=u+s");
    assert_eq!(form_body(&vec![]), "");
}

#[test]
fn later_param_overrides() {
    let pairs = vec![
        ("a".to_string(), "1".to_string()),
        ("b".to_string(), "2".to_string()),
        ("a".to_string(), "3".to_string()),
    ];
    assert_eq!(find_param(&pairs, "a"), Some("3".to_string()));
    assert_eq!(find_param(&pairs, "b"), Some("2".to_string()));
    assert_eq!(find_param(&pairs, "c"), None);
}

#[test]
fn decimal_parsing() {
    assert_eq!(parse_decimal("3600"), Some(3600));
    assert_eq!(parse_decimal("0"), Some(0));
    assert_eq!(parse_decimal(""), None);
    assert_eq!(parse_decimal("12a"), None);
    assert_eq!(parse_decimal("-1"), None);
    assert_eq!(parse_decimal("18446744073709551615"), Some(u64::MAX));
    assert_eq!(parse_decimal("18446744073709551616"), None);
}
