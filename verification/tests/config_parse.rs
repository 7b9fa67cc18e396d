use asgard_rust::config::{parse_u16, AppConfig};

#[test]
fn parse_u16_accepts_plain_decimals() {
    assert_eq!(parse_u16("0"), Some(0));
    assert_eq!(parse_u16("8080"), Some(8080));
    assert_eq!(parse_u16("65535"), Some(65535));
    assert_eq!(parse_u16("00080"), Some(80));
}

#[test]
fn parse_u16_rejects_out_of_range_and_non_digits() {
    assert_eq!(parse_u16("65536"), None);
    assert_eq!(parse_u16("99999999"), None);
    assert_eq!(parse_u16(""), None);
    assert_eq!(parse_u16("80a"), None);
    assert_eq!(parse_u16("-1"), None);
    assert_eq!(parse_u16(" 80"), None);
    assert_eq!(parse_u16("8.0"), None);
}

#[test]
fn from_parts_applies_defaults() {
    let c = AppConfig::from_parts(None, None, Some("postgres://db".to_string())).unwrap();
    assert_eq!(c.host, "127.0.0.1");
    assert_eq!(c.port, 8080);
    assert_eq!(c.database_url, "postgres://db");
}

#[test]
fn from_parts_takes_explicit_settings() {
    let c = AppConfig::from_parts(
        Some("0.0.0.0".to_string()),
        Some("9090".to_string()),
        Some("postgres://db".to_string()),
    )
    .unwrap();
    assert_eq!(c.host, "0.0.0.0");
    assert_eq!(c.port, 9090);
}

#[test]
fn from_parts_rejects_bad_port_text() {
    let e = AppConfig::from_parts(
        None,
        Some("not-a-port".to_string()),
        Some("postgres://db".to_string()),
    )
    .unwrap_err();
    assert_eq!(e, "APP_PORT must be a u16");

    let e = AppConfig::from_parts(None, Some("70000".to_string()), Some("x".to_string()))
        .unwrap_err();
    assert_eq!(e, "APP_PORT must be a u16");
}

#[test]
fn from_parts_requires_database_url() {
    let e = AppConfig::from_parts(None, None, None).unwrap_err();
    assert_eq!(e, "DATABASE_URL is required");
}
