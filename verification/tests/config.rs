use reporteer::config::Config;

#[test]
fn test_default_config() {
    let config = Config::default();
    assert_eq!(
        config.endpoint_url().as_str(),
        "http://127.0.0.1:8006/derived_key"
    );
    assert_eq!(config.server_port(), 3000);
    assert_eq!(config.log_level(), "info");
    assert_eq!(config.verify_on_start(), false);
}

#[test]
fn test_config_from_env() {
    let config = Config::from_env(
        Some("http://localhost:9000/key".to_string()),
        Some("8080".to_string()),
        Some("debug".to_string()),
        Some("true".to_string()),
    )
    .unwrap();
    assert_eq!(config.endpoint_url().as_str(), "http://localhost:9000/key");
    assert_eq!(config.server_port(), 8080);
    assert_eq!(config.log_level(), "debug");
    assert_eq!(config.verify_on_start(), true);
}

#[test]
fn test_invalid_port() {
    let res = Config::from_env(None, Some("invalid".to_string()), None, None);
    assert!(res.is_err());
}

#[test]
fn test_invalid_url() {
    let res = Config::from_env(Some("not-a-url".to_string()), None, None, None);
    assert!(res.is_err());
}

#[test]
fn test_absent_values_fall_back_to_defaults() {
    let config = Config::from_env(None, None, None, None).unwrap();
    assert_eq!(
        config.endpoint_url().as_str(),
        "http://127.0.0.1:8006/derived_key"
    );
    assert_eq!(config.server_port(), 3000);
    assert_eq!(config.log_level(), "info");
    assert_eq!(config.verify_on_start(), false);
}

#[test]
fn test_url_is_normalized() {
    // Url::parse adds the root path to an authority-only URL.
    let config = Config::from_env(Some("http://example.com".to_string()), None, None, None).unwrap();
    assert_eq!(config.endpoint_url().as_str(), "http://example.com/");
}

#[test]
fn test_port_edge_values() {
    let ok = Config::from_env(None, Some("65535".to_string()), None, None).unwrap();
    assert_eq!(ok.server_port(), 65535);
    let plus = Config::from_env(None, Some("+80".to_string()), None, None).unwrap();
    assert_eq!(plus.server_port(), 80);
    assert!(Config::from_env(None, Some("65536".to_string()), None, None).is_err());
    assert!(Config::from_env(None, Some("".to_string()), None, None).is_err());
    assert!(Config::from_env(None, Some("-1".to_string()), None, None).is_err());
    assert!(Config::from_env(None, Some("80a".to_string()), None, None).is_err());
}

#[test]
fn test_verify_flag_parsing() {
    let yes = Config::from_env(None, None, None, Some("TRUE".to_string())).unwrap();
    assert!(yes.verify_on_start());
    let mixed = Config::from_env(None, None, None, Some("True".to_string())).unwrap();
    assert!(mixed.verify_on_start());
    let no = Config::from_env(None, None, None, Some("yes".to_string())).unwrap();
    assert!(!no.verify_on_start());
    let empty = Config::from_env(None, None, None, Some(String::new())).unwrap();
    assert!(!empty.verify_on_start());
}

#[test]
fn test_config_error_message() {
    let err = Config::from_env(Some("not-a-url".to_string()), None, None, None).unwrap_err();
    assert_eq!(err.message(), "Configuration error: Invalid endpoint URL");
    let err = Config::from_env(None, Some("nope".to_string()), None, None).unwrap_err();
    assert_eq!(err.message(), "Configuration error: Invalid server port");
}
