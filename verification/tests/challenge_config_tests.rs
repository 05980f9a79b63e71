use otoroshictl::challenge::config::{
    ConfigError, ProtocolVersion, ProxyConfig, DEFAULT_BACKEND_HOST, DEFAULT_BACKEND_PORT,
    DEFAULT_LISTEN_PORT, DEFAULT_REQUEST_TIMEOUT_SECS, DEFAULT_STATE_HEADER,
    DEFAULT_STATE_RESP_HEADER, DEFAULT_TOKEN_TTL_SECS, LISTEN_ADDRESS,
};
use otoroshictl::otoroshi::protocol::Algorithm;

#[test]
fn test_config_new_with_defaults_v2() {
    let config = ProxyConfig::new(
        DEFAULT_LISTEN_PORT,
        DEFAULT_BACKEND_HOST.to_string(),
        DEFAULT_BACKEND_PORT,
        Some("test-secret".to_string()),
        false,
        DEFAULT_STATE_HEADER.to_string(),
        DEFAULT_STATE_RESP_HEADER.to_string(),
        DEFAULT_REQUEST_TIMEOUT_SECS,
        DEFAULT_TOKEN_TTL_SECS,
        false,
    );

    assert!(config.is_ok());
    let config = config.unwrap();
    assert_eq!(config.listen_port, 8080);
    assert_eq!(config.backend_url, "http://127.0.0.1:9000");
    assert_eq!(config.secret, Some(b"test-secret".to_vec()));
    assert_eq!(config.state_header.as_str(), "otoroshi-state");
    assert_eq!(config.state_resp_header.as_str(), "otoroshi-state-resp");
    assert_eq!(config.request_timeout_secs, 30);
    assert_eq!(config.token_ttl, 30);
    assert_eq!(config.version, ProtocolVersion::V2);
    assert_eq!(config.algorithm, Algorithm::HS512);
    assert_eq!(LISTEN_ADDRESS, "0.0.0.0");
}

#[test]
fn test_config_v1_mode() {
    let config = ProxyConfig::new(
        8080,
        "127.0.0.1".to_string(),
        9000,
        None,
        false,
        DEFAULT_STATE_HEADER.to_string(),
        DEFAULT_STATE_RESP_HEADER.to_string(),
        30,
        30,
        true,
    );

    assert!(config.is_ok());
    let config = config.unwrap();
    assert_eq!(config.version, ProtocolVersion::V1);
    assert!(config.secret.is_none());
}

#[test]
fn test_config_custom_values() {
    let config = ProxyConfig::new(
        3000,
        "localhost".to_string(),
        8000,
        Some("my-secret".to_string()),
        false,
        "X-Challenge".to_string(),
        "X-Challenge-Resp".to_string(),
        60,
        45,
        false,
    );

    assert!(config.is_ok());
    let config = config.unwrap();
    assert_eq!(config.listen_port, 3000);
    assert_eq!(config.backend_url, "http://localhost:8000");
    assert_eq!(config.request_timeout_secs, 60);
    assert_eq!(config.token_ttl, 45);
    assert_eq!(config.state_header, "x-challenge");
    assert_eq!(config.state_resp_header, "x-challenge-resp");
}

#[test]
fn test_config_base64_secret() {
    let config = ProxyConfig::new(
        8080,
        "127.0.0.1".to_string(),
        9000,
        Some("aGVsbG8=".to_string()),
        true,
        DEFAULT_STATE_HEADER.to_string(),
        DEFAULT_STATE_RESP_HEADER.to_string(),
        30,
        30,
        false,
    );

    assert!(config.is_ok());
    let config = config.unwrap();
    assert_eq!(config.secret, Some(b"hello".to_vec()));
}

#[test]
fn test_config_invalid_header() {
    let config = ProxyConfig::new(
        8080,
        "127.0.0.1".to_string(),
        9000,
        Some("secret".to_string()),
        false,
        "Invalid Header With Spaces".to_string(),
        DEFAULT_STATE_RESP_HEADER.to_string(),
        30,
        30,
        false,
    );

    assert!(config.is_err());
    assert_eq!(
        config.unwrap_err(),
        ConfigError::InvalidHeader { name: "state_header".to_string() }
    );
}

#[test]
fn test_config_invalid_response_header() {
    let config = ProxyConfig::new(
        8080,
        "127.0.0.1".to_string(),
        9000,
        Some("secret".to_string()),
        false,
        DEFAULT_STATE_HEADER.to_string(),
        "".to_string(),
        30,
        30,
        false,
    );
    assert_eq!(
        config.unwrap_err(),
        ConfigError::InvalidHeader { name: "state_resp_header".to_string() }
    );
}

#[test]
fn test_config_invalid_base64_secret() {
    let config = ProxyConfig::new(
        8080,
        "127.0.0.1".to_string(),
        9000,
        Some("not-valid-base64!!!".to_string()),
        true,
        DEFAULT_STATE_HEADER.to_string(),
        DEFAULT_STATE_RESP_HEADER.to_string(),
        30,
        30,
        false,
    );

    assert!(config.is_err());
    assert!(matches!(
        config.unwrap_err(),
        ConfigError::InvalidBase64Secret(_)
    ));
}

#[test]
fn test_config_invalid_ttl_zero() {
    let config = ProxyConfig::new(
        8080,
        "127.0.0.1".to_string(),
        9000,
        Some("secret".to_string()),
        false,
        DEFAULT_STATE_HEADER.to_string(),
        DEFAULT_STATE_RESP_HEADER.to_string(),
        30,
        0,
        false,
    );

    assert!(config.is_err());
    assert!(matches!(
        config.unwrap_err(),
        ConfigError::InvalidTokenTtl(0)
    ));
}

#[test]
fn test_config_invalid_ttl_negative() {
    let config = ProxyConfig::new(
        8080,
        "127.0.0.1".to_string(),
        9000,
        Some("secret".to_string()),
        false,
        DEFAULT_STATE_HEADER.to_string(),
        DEFAULT_STATE_RESP_HEADER.to_string(),
        30,
        -10,
        false,
    );

    assert!(config.is_err());
    assert!(matches!(
        config.unwrap_err(),
        ConfigError::InvalidTokenTtl(-10)
    ));
}

#[test]
fn test_config_invalid_backend_host_empty() {
    let config = ProxyConfig::new(
        8080,
        "".to_string(),
        9000,
        Some("secret".to_string()),
        false,
        DEFAULT_STATE_HEADER.to_string(),
        DEFAULT_STATE_RESP_HEADER.to_string(),
        30,
        30,
        false,
    );

    assert!(config.is_err());
    assert!(matches!(
        config.unwrap_err(),
        ConfigError::InvalidBackendHost(_)
    ));
}

#[test]
fn test_config_invalid_backend_host_whitespace() {
    let config = ProxyConfig::new(
        8080,
        "host with spaces".to_string(),
        9000,
        Some("secret".to_string()),
        false,
        DEFAULT_STATE_HEADER.to_string(),
        DEFAULT_STATE_RESP_HEADER.to_string(),
        30,
        30,
        false,
    );

    assert!(config.is_err());
    assert!(matches!(
        config.unwrap_err(),
        ConfigError::InvalidBackendHost(_)
    ));
}

#[test]
fn test_config_invalid_port_zero() {
    let config = ProxyConfig::new(
        0,
        "127.0.0.1".to_string(),
        9000,
        Some("secret".to_string()),
        false,
        DEFAULT_STATE_HEADER.to_string(),
        DEFAULT_STATE_RESP_HEADER.to_string(),
        30,
        30,
        false,
    );

    assert!(config.is_err());
    assert!(matches!(config.unwrap_err(), ConfigError::InvalidPort));
}

#[test]
fn test_config_invalid_backend_port_zero() {
    let config = ProxyConfig::new(
        8080,
        "127.0.0.1".to_string(),
        0,
        Some("secret".to_string()),
        false,
        DEFAULT_STATE_HEADER.to_string(),
        DEFAULT_STATE_RESP_HEADER.to_string(),
        30,
        30,
        false,
    );

    assert!(config.is_err());
    assert!(matches!(config.unwrap_err(), ConfigError::InvalidPort));
}

#[test]
fn test_config_first_failing_check_wins() {
    let all_wrong = ProxyConfig::new(
        0,
        "".to_string(),
        0,
        Some("!!!".to_string()),
        true,
        "bad header".to_string(),
        "also bad".to_string(),
        30,
        0,
        false,
    );
    assert_eq!(
        all_wrong.unwrap_err(),
        ConfigError::InvalidHeader { name: "state_header".to_string() }
    );
    let ttl_before_port = ProxyConfig::new(
        0,
        "".to_string(),
        0,
        Some("!!!".to_string()),
        true,
        "a".to_string(),
        "b".to_string(),
        30,
        -1,
        false,
    );
    assert_eq!(ttl_before_port.unwrap_err(), ConfigError::InvalidTokenTtl(-1));
    let port_before_host = ProxyConfig::new(
        1,
        "".to_string(),
        0,
        Some("!!!".to_string()),
        true,
        "a".to_string(),
        "b".to_string(),
        30,
        1,
        false,
    );
    assert_eq!(port_before_host.unwrap_err(), ConfigError::InvalidPort);
    let host_before_secret = ProxyConfig::new(
        1,
        "a b".to_string(),
        1,
        Some("!!!".to_string()),
        true,
        "a".to_string(),
        "b".to_string(),
        30,
        1,
        false,
    );
    assert_eq!(
        host_before_secret.unwrap_err(),
        ConfigError::InvalidBackendHost("host cannot contain whitespace".to_string())
    );
    let empty_host = ProxyConfig::new(
        1,
        "".to_string(),
        1,
        None,
        true,
        "a".to_string(),
        "b".to_string(),
        30,
        1,
        false,
    );
    assert_eq!(
        empty_host.unwrap_err(),
        ConfigError::InvalidBackendHost("host cannot be empty".to_string())
    );
}

#[test]
fn test_config_error_messages() {
    assert_eq!(
        ConfigError::InvalidHeader { name: "state_header".to_string() }.message(),
        "Invalid header name for state_header: invalid HTTP header name"
    );
    assert_eq!(
        ConfigError::InvalidBase64Secret("Invalid padding".to_string()).message(),
        "Invalid base64 encoding for secret: Invalid padding"
    );
    assert_eq!(
        ConfigError::InvalidTokenTtl(-10).message(),
        "Token TTL must be greater than 0, got -10"
    );
    assert_eq!(
        ConfigError::InvalidBackendHost("host cannot be empty".to_string()).message(),
        "Invalid backend host: host cannot be empty"
    );
    assert_eq!(ConfigError::InvalidPort.message(), "Port must be greater than 0");
}

#[test]
fn test_config_with_algorithm_changes_nothing_else() {
    let config = ProxyConfig::new(
        8080,
        "127.0.0.1".to_string(),
        9000,
        Some("secret".to_string()),
        false,
        "a".to_string(),
        "b".to_string(),
        30,
        30,
        false,
    )
    .unwrap()
    .with_algorithm(Algorithm::HS256);
    assert_eq!(config.algorithm, Algorithm::HS256);
    assert_eq!(config.backend_url, "http://127.0.0.1:9000");
    assert_eq!(config.secret, Some(b"secret".to_vec()));
}

#[test]
fn test_version_selection_and_start() {
    assert_eq!(ProtocolVersion::selected(true), ProtocolVersion::V1);
    assert_eq!(ProtocolVersion::selected(false), ProtocolVersion::V2);
    assert_eq!(ProtocolVersion::V1.label(), "V1 (echo)");
    assert_eq!(ProtocolVersion::V2.label(), "V2 (JWT)");
    assert!(ProtocolVersion::V1.can_start(false));
    assert!(ProtocolVersion::V1.can_start(true));
    assert!(ProtocolVersion::V2.can_start(true));
    assert!(!ProtocolVersion::V2.can_start(false));
}
