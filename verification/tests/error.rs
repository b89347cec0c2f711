use reporteer::error::ReporteerError;

#[test]
fn test_error_messages() {
    let fetch = ReporteerError::FetchError("connection refused".to_string());
    assert_eq!(
        fetch.message(),
        "Failed to fetch derived key: connection refused"
    );
    let config = ReporteerError::ConfigError("Invalid server port".to_string());
    assert_eq!(config.message(), "Configuration error: Invalid server port");
    let internal = ReporteerError::InternalError("oops".to_string());
    assert_eq!(internal.message(), "Internal error: oops");
}
