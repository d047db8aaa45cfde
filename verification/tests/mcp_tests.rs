use std::time::Duration;

use cloudiful_server::mcp::{
    McpServerError, RouterMount, ServerConfig, DEFAULT_MAX_REQUEST_BODY_BYTES,
};
use tokio_util::sync::CancellationToken;

#[test]
fn defaults_map_to_secure_rmcp_config() {
    let config = ServerConfig::default().to_rmcp_config().into_rmcp();

    assert!(config.legacy_session_mode);
    assert!(!config.json_response);
    assert_eq!(config.allowed_hosts, ["localhost", "127.0.0.1", "::1"]);
    assert!(config.allowed_origins.is_empty());
    assert_eq!(
        config.max_request_body_bytes,
        DEFAULT_MAX_REQUEST_BODY_BYTES
    );
    assert!(!config.stateless_protocol_metadata_required);
    assert!(config.session_store.is_none());
}

#[test]
fn legacy_session_mode_controls_legacy_protocol_sessions() {
    let config = ServerConfig::new()
        .with_legacy_session_mode(false)
        .to_rmcp_config().into_rmcp();

    assert!(!config.legacy_session_mode);
}

#[test]
fn stateful_mode_alias_forwards_to_legacy_session_mode() {
    let config = ServerConfig::new()
        .with_stateful_mode(false)
        .to_rmcp_config().into_rmcp();

    assert!(!config.legacy_session_mode);
}

#[test]
fn explicit_hosts_replace_loopback_default() {
    let config = ServerConfig::new()
        .with_allowed_hosts(&["mcp.example.com"])
        .to_rmcp_config().into_rmcp();

    assert_eq!(config.allowed_hosts, ["mcp.example.com"]);
}

#[test]
fn disabling_host_validation_allows_any_host() {
    let config = ServerConfig::new().disable_allowed_hosts().to_rmcp_config().into_rmcp();

    assert!(config.allowed_hosts.is_empty());
}

#[test]
fn empty_hosts_list_keeps_loopback_default() {
    let config = ServerConfig::new()
        .with_allowed_hosts(&[])
        .to_rmcp_config().into_rmcp();

    assert_eq!(config.allowed_hosts, ["localhost", "127.0.0.1", "::1"]);
}

#[test]
fn allowed_origins_are_passed_through() {
    let config = ServerConfig::new()
        .with_allowed_origins(&["https://app.example.com"])
        .to_rmcp_config().into_rmcp();

    assert_eq!(config.allowed_origins, ["https://app.example.com"]);
}

#[test]
fn request_body_limit_and_strict_metadata_are_configurable() {
    let config = ServerConfig::new()
        .with_max_request_body_bytes(1024)
        .with_stateless_protocol_metadata_required(true)
        .to_rmcp_config().into_rmcp();

    assert_eq!(config.max_request_body_bytes, 1024);
    assert!(config.stateless_protocol_metadata_required);
}

#[test]
fn host_settings_are_last_call_wins() {
    let config = ServerConfig::new()
        .disable_allowed_hosts()
        .with_allowed_hosts(&["a.example"])
        .to_rmcp_config().into_rmcp();
    assert_eq!(config.allowed_hosts, ["a.example"]);

    let config = ServerConfig::new()
        .with_allowed_hosts(&["a.example"])
        .disable_allowed_hosts()
        .to_rmcp_config().into_rmcp();
    assert!(config.allowed_hosts.is_empty());

    let config = ServerConfig::new()
        .disable_allowed_hosts()
        .with_allowed_hosts(&[])
        .to_rmcp_config().into_rmcp();
    assert_eq!(config.allowed_hosts, ["localhost", "127.0.0.1", "::1"]);
}

#[test]
fn origins_can_be_cleared_again() {
    let config = ServerConfig::new()
        .with_allowed_origins(&["https://a.example"])
        .disable_allowed_origins()
        .to_rmcp_config().into_rmcp();
    assert!(config.allowed_origins.is_empty());
}

#[test]
fn stream_timings_and_token_are_passed_through() {
    let token = CancellationToken::new();
    let config = ServerConfig::new()
        .with_sse_keep_alive(Duration::from_secs(5))
        .with_sse_retry(Duration::from_millis(250))
        .with_json_response(true)
        .with_cancellation_token(token.clone())
        .to_rmcp_config().into_rmcp();
    assert_eq!(config.sse_keep_alive, Some(Duration::from_secs(5)));
    assert_eq!(config.sse_retry, Some(Duration::from_millis(250)));
    assert!(config.json_response);
    let defaults = ServerConfig::new().to_rmcp_config().into_rmcp();
    assert_eq!(defaults.sse_keep_alive, None);
    assert_eq!(defaults.sse_retry, None);

    token.cancel();
    assert!(config.cancellation_token.is_cancelled());
    assert!(!defaults.cancellation_token.is_cancelled());
}

#[test]
fn rmcp_settings_keep_the_token_only_when_set() {
    assert!(ServerConfig::new().rmcp_settings().cancellation_token.is_none());
    let settings = ServerConfig::new()
        .with_cancellation_token(CancellationToken::new())
        .with_allowed_hosts(&["mcp.example.com"])
        .rmcp_settings();
    assert!(settings.cancellation_token.is_some());
    assert_eq!(settings.allowed_hosts, ["mcp.example.com"]);
}

#[test]
fn service_path_is_normalized() {
    let path = |p: &str| ServerConfig::new().with_service_path(p).service_path().unwrap();
    assert_eq!(path("mcp/"), "/mcp");
    assert_eq!(path(" /api/mcp// "), "/api/mcp");
    assert_eq!(path("/"), "/");
    assert_eq!(path("///"), "/");
    assert_eq!(path("x"), "/x");
    assert_eq!(ServerConfig::new().service_path().unwrap(), "/mcp");
}

#[test]
fn blank_service_path_is_rejected() {
    let err = ServerConfig::new().with_service_path(" ").service_path().unwrap_err();
    match err {
        McpServerError::InvalidServicePath(p) => assert_eq!(p, " "),
        other => panic!("unexpected error: {other:?}"),
    }
    assert!(matches!(
        ServerConfig::new().with_service_path("").router_mount(),
        Err(McpServerError::InvalidServicePath(_))
    ));
}

#[test]
fn root_path_mounts_as_fallback() {
    assert_eq!(
        ServerConfig::new().with_service_path("/").router_mount().unwrap(),
        RouterMount::Root
    );
    assert_eq!(
        ServerConfig::new().with_service_path("//").router_mount().unwrap(),
        RouterMount::Root
    );
    assert_eq!(
        ServerConfig::new().with_service_path("mcp/").router_mount().unwrap(),
        RouterMount::Nested("/mcp".to_string())
    );
}

#[test]
fn normalizing_a_service_path_twice_changes_nothing() {
    for p in ["mcp/", "/", "//a//", " x "] {
        let once = ServerConfig::new().with_service_path(p).service_path().unwrap();
        let twice = ServerConfig::new().with_service_path(&once).service_path().unwrap();
        assert_eq!(once, twice);
    }
}

#[test]
fn mcp_errors_describe_themselves() {
    let err = ServerConfig::new().with_service_path("\t").service_path().unwrap_err();
    assert_eq!(err.message(), "invalid MCP service path: \t");
    let err = McpServerError::from(cloudiful_server::ServerError::from(
        cloudiful_server::ServerConfigError::MissingListenAddr,
    ));
    assert_eq!(err.message(), "listen_addr must not be empty");
}


#[test]
fn mcp_errors_expose_what_they_carry() {
    let err = McpServerError::InvalidServicePath(" ".to_string());
    assert!(err.server_error().is_none());
    assert!(err.rmcp_error().is_none());
    let err = McpServerError::from(cloudiful_server::ServerError::from(
        cloudiful_server::ServerConfigError::MissingListenAddr,
    ));
    assert!(err.server_error().unwrap().config_error().is_some());
    assert!(err.rmcp_error().is_none());
}
