use user_service::config::{parse_port, Config, ConfigError};

#[test]
fn parse_port_accepts_decimal_u16() {
    assert_eq!(parse_port("3000"), Some(3000));
    assert_eq!(parse_port("0"), Some(0));
    assert_eq!(parse_port("65535"), Some(65535));
    assert_eq!(parse_port("007"), Some(7));
}

#[test]
fn parse_port_rejects_everything_else() {
    assert_eq!(parse_port(""), None);
    assert_eq!(parse_port("65536"), None);
    assert_eq!(parse_port("99999999999999999999"), None);
    assert_eq!(parse_port("12a"), None);
    assert_eq!(parse_port("+3"), None);
    assert_eq!(parse_port("-3"), None);
    assert_eq!(parse_port(" 3000"), None);
    assert_eq!(parse_port("3 000"), None);
}

#[test]
fn from_values_builds_the_full_configuration() {
    let config = Config::from_values(
        Some("0.0.0.0".to_owned()),
        Some("8080".to_owned()),
        Some("mongodb://localhost:27017".to_owned()),
        Some("appdb".to_owned()),
    )
    .unwrap();
    assert_eq!(config.host, "0.0.0.0");
    assert_eq!(config.port, 8080);
    assert_eq!(config.mongodb_uri, "mongodb://localhost:27017");
    assert_eq!(config.mongodb_db, "appdb");
}

#[test]
fn from_values_applies_defaults() {
    let config = Config::from_values(
        None,
        None,
        Some("mongodb://localhost:27017".to_owned()),
        Some("appdb".to_owned()),
    )
    .unwrap();
    assert_eq!(config.host, "127.0.0.1");
    assert_eq!(config.port, 3000);
}

#[test]
fn from_values_rejects_a_bad_port_first() {
    // The malformed port is reported even when the store address is missing
    // too: the port is inspected first.
    let r = Config::from_values(None, Some("70000".to_owned()), None, None);
    assert!(matches!(r, Err(ConfigError::BadPort)));
    let r = Config::from_values(None, Some("3000x".to_owned()), Some("u".to_owned()), Some("d".to_owned()));
    assert!(matches!(r, Err(ConfigError::BadPort)));
}

#[test]
fn from_values_requires_uri_and_db() {
    let r = Config::from_values(None, None, None, Some("appdb".to_owned()));
    assert!(matches!(r, Err(ConfigError::MissingUri)));
    let r = Config::from_values(None, Some("3000".to_owned()), Some("mongodb://h".to_owned()), None);
    assert!(matches!(r, Err(ConfigError::MissingDb)));
}
