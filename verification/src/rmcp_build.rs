//! Building rmcp's `StreamableHttpServerConfig` from the settings of an MCP
//! service. The configuration carries, as a ghost, the settings its setters
//! were given, and only the calls in this module make one.
use rmcp::transport::streamable_http_server::StreamableHttpServerConfig;
use tokio_util::sync::CancellationToken;

use vstd::prelude::*;

use crate::mcp::RmcpSettings;

verus! {

#[verifier::external_type_specification]
#[verifier::external_body]
pub struct ExStreamableHttpServerConfig(StreamableHttpServerConfig);

/// rmcp's Streamable HTTP server configuration, with the settings it was
/// built from and whether a session store is set in it.
pub struct RmcpConfig {
    config: StreamableHttpServerConfig,
    settings: Ghost<RmcpSettings>,
    session_store: Ghost<bool>,
}

impl RmcpConfig {
    /// The settings that were passed to the configuration's setters; no
    /// cancellation token when the default one was kept.
    pub closed spec fn settings(self) -> RmcpSettings {
        self.settings@
    }

    /// Whether the configuration's `session_store` is set.
    pub closed spec fn has_session_store(self) -> bool {
        self.session_store@
    }

    /// The configuration itself, to hand to `StreamableHttpService::new`.
    pub fn into_rmcp(self) -> (config: StreamableHttpServerConfig) {
        self.config
    }
}

/// Calls `StreamableHttpServerConfig::default()` and then `with_sse_keep_alive`,
/// `with_sse_retry`, `with_legacy_session_mode`, `with_json_response`,
/// `with_max_request_body_bytes`, `with_stateless_protocol_metadata_required`,
/// `with_allowed_hosts` and `with_allowed_origins` with the matching settings.
/// Each setter, in its source, stores its argument in the field of that name.
/// The default cancellation token is kept, and the default sets no session
/// store.
#[verifier::external_body]
pub(crate) fn rmcp_config(settings: &RmcpSettings) -> (config: RmcpConfig)
    ensures
        config.settings() == (RmcpSettings { cancellation_token: None, ..*settings }),
        !config.has_session_store(),
{
    let config = StreamableHttpServerConfig::default()
        .with_sse_keep_alive(settings.sse_keep_alive)
        .with_sse_retry(settings.sse_retry)
        .with_legacy_session_mode(settings.legacy_session_mode)
        .with_json_response(settings.json_response)
        .with_max_request_body_bytes(settings.max_request_body_bytes)
        .with_stateless_protocol_metadata_required(settings.stateless_protocol_metadata_required)
        .with_allowed_hosts(settings.allowed_hosts.clone())
        .with_allowed_origins(settings.allowed_origins.clone());
    RmcpConfig {
        config,
        settings: Ghost(RmcpSettings { cancellation_token: None, ..*settings }),
        session_store: Ghost(false),
    }
}

/// Calls `StreamableHttpServerConfig::with_cancellation_token`, whose source
/// replaces the configuration's token with the one given and changes
/// nothing else.
#[verifier::external_body]
pub(crate) fn rmcp_with_cancellation_token(config: RmcpConfig, token: CancellationToken) -> (next:
    RmcpConfig)
    ensures
        next.settings() == (RmcpSettings { cancellation_token: Some(token), ..config.settings() }),
        next.has_session_store() == config.has_session_store(),
{
    RmcpConfig {
        settings: Ghost(RmcpSettings { cancellation_token: Some(token), ..config.settings@ }),
        session_store: config.session_store,
        config: config.config.with_cancellation_token(token),
    }
}

} // verus!
