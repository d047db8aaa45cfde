//! Settings of an MCP Streamable HTTP service: where it is mounted, which
//! `Host` and `Origin` headers it accepts, and how requests are handled;
//! and the rmcp settings they map to.
use std::time::Duration;

use tokio_util::sync::CancellationToken;
use vstd::prelude::*;
use vstd::std_specs::convert::FromSpecImpl;
use vstd::string::*;

pub use crate::rmcp_build::RmcpConfig;
use crate::rmcp_build::{rmcp_config, rmcp_with_cancellation_token};
use crate::error::{config_fault_message, tls_fault_message, ServerError, ServerFault};
use crate::text::{str_views, strings_from, trim, trim_bounds};

verus! {

#[verifier::external_type_specification]
#[verifier::external_body]
pub struct ExCancellationToken(tokio_util::sync::CancellationToken);

#[verifier::external_type_specification]
#[verifier::external_body]
pub struct ExRmcpError(rmcp::RmcpError);

/// `CancellationToken::clone` gives a handle to the same token. Nothing is
/// claimed of the handle.
pub assume_specification[ <tokio_util::sync::CancellationToken as Clone>::clone ](
    token: &tokio_util::sync::CancellationToken,
) -> tokio_util::sync::CancellationToken;

/// The default maximum Streamable HTTP POST body size (4 MiB).
pub const DEFAULT_MAX_REQUEST_BODY_BYTES: usize = 4 * 1024 * 1024;

/// The abstract content of a `McpServerError`.
pub enum McpFault {
    Config(ServerFault),
    Mcp,
    InvalidServicePath(Seq<char>),
}

/// Why an MCP server could not be set up or run.
#[derive(Debug)]
pub enum McpServerError {
    Config(ServerError),
    Mcp(rmcp::RmcpError),
    InvalidServicePath(String),
}

impl View for McpServerError {
    type V = McpFault;

    open spec fn view(&self) -> McpFault {
        match self {
            McpServerError::Config(e) => McpFault::Config(e@),
            McpServerError::Mcp(_) => McpFault::Mcp,
            McpServerError::InvalidServicePath(p) => McpFault::InvalidServicePath(p@),
        }
    }
}

/// Calls `to_string` on a `rmcp::RmcpError`. Nothing is claimed of the text.
#[verifier::external_body]
fn rmcp_error_text(error: &rmcp::RmcpError) -> (text: String) {
    error.to_string()
}

impl McpServerError {
    /// The server error underneath, for `Config`.
    pub fn server_error(&self) -> (source: Option<&ServerError>)
        ensures
            match self {
                McpServerError::Config(e) => source == Some(e),
                _ => source is None,
            },
    {
        match self {
            McpServerError::Config(e) => Some(e),
            _ => None,
        }
    }

    /// The rmcp error underneath, for `Mcp`.
    pub fn rmcp_error(&self) -> (source: Option<&rmcp::RmcpError>)
        ensures
            match self {
                McpServerError::Mcp(e) => source == Some(e),
                _ => source is None,
            },
    {
        match self {
            McpServerError::Mcp(e) => Some(e),
            _ => None,
        }
    }
}

impl McpServerError {
    /// The human-readable description of this error: that of the server
    /// error it carries, the text of the rmcp error, or the refused path.
    pub fn message(&self) -> (text: String)
        ensures
            match self@ {
                McpFault::Config(ServerFault::Config(f)) => text@ == config_fault_message(f),
                McpFault::Config(ServerFault::Tls(f)) => exists|detail: Seq<char>|
                    text@ == tls_fault_message(f, detail),
                McpFault::InvalidServicePath(p) => text@ == "invalid MCP service path: "@ + p,
                _ => true,
            },
    {
        match self {
            McpServerError::Config(e) => e.message(),
            McpServerError::Mcp(e) => rmcp_error_text(e),
            McpServerError::InvalidServicePath(path) => String::from_str(
                "invalid MCP service path: ",
            ).concat(path.as_str()),
        }
    }
}

impl From<ServerError> for McpServerError {
    fn from(value: ServerError) -> (converted: McpServerError) {
        McpServerError::Config(value)
    }
}

impl FromSpecImpl<ServerError> for McpServerError {
    open spec fn obeys_from_spec() -> bool {
        true
    }

    open spec fn from_spec(value: ServerError) -> McpServerError {
        McpServerError::Config(value)
    }
}

impl From<rmcp::RmcpError> for McpServerError {
    fn from(value: rmcp::RmcpError) -> (converted: McpServerError) {
        McpServerError::Mcp(value)
    }
}

impl FromSpecImpl<rmcp::RmcpError> for McpServerError {
    open spec fn obeys_from_spec() -> bool {
        true
    }

    open spec fn from_spec(value: rmcp::RmcpError) -> McpServerError {
        McpServerError::Mcp(value)
    }
}

/// The loopback hosts `localhost`, `127.0.0.1` and `::1`.
pub open spec fn loopback_hosts() -> Seq<Seq<char>> {
    seq![
        seq!['l', 'o', 'c', 'a', 'l', 'h', 'o', 's', 't'],
        seq!['1', '2', '7', '.', '0', '.', '0', '.', '1'],
        seq![':', ':', '1'],
    ]
}

/// The allowlists that rmcp's Streamable HTTP configuration starts with.
struct RmcpDefaults {
    allowed_hosts: Vec<String>,
    allowed_origins: Vec<String>,
}

/// Reads `allowed_hosts` and `allowed_origins` of
/// `rmcp::transport::streamable_http_server::StreamableHttpServerConfig::default()`.
/// Its source sets them to the loopback hosts and to an empty list.
#[verifier::external_body]
fn rmcp_defaults() -> (defaults: RmcpDefaults)
    ensures
        defaults.allowed_hosts.deep_view() == loopback_hosts(),
        defaults.allowed_origins.deep_view() == Seq::<Seq<char>>::empty(),
{
    let config = rmcp::transport::streamable_http_server::StreamableHttpServerConfig::default();
    RmcpDefaults { allowed_hosts: config.allowed_hosts, allowed_origins: config.allowed_origins }
}

/// Runtime settings of an MCP Streamable HTTP service.
#[derive(Clone, Debug)]
pub struct ServerConfig {
    service_path: String,
    legacy_session_mode: bool,
    json_response: bool,
    sse_keep_alive: Option<Duration>,
    sse_retry: Option<Duration>,
    allowed_hosts: Vec<String>,
    allowed_origins: Vec<String>,
    hosts_validation_disabled: bool,
    cancellation_token: Option<CancellationToken>,
    max_request_body_bytes: usize,
    stateless_protocol_metadata_required: bool,
}

/// The abstract content of an MCP `ServerConfig`.
pub struct McpConfigView {
    pub service_path: Seq<char>,
    pub legacy_session_mode: bool,
    pub json_response: bool,
    pub sse_keep_alive: Option<Duration>,
    pub sse_retry: Option<Duration>,
    pub allowed_hosts: Seq<Seq<char>>,
    pub allowed_origins: Seq<Seq<char>>,
    pub hosts_validation_disabled: bool,
    pub cancellation_token: Option<CancellationToken>,
    pub max_request_body_bytes: usize,
    pub stateless_protocol_metadata_required: bool,
}

impl View for ServerConfig {
    type V = McpConfigView;

    closed spec fn view(&self) -> McpConfigView {
        McpConfigView {
            service_path: self.service_path@,
            legacy_session_mode: self.legacy_session_mode,
            json_response: self.json_response,
            sse_keep_alive: self.sse_keep_alive,
            sse_retry: self.sse_retry,
            allowed_hosts: self.allowed_hosts.deep_view(),
            allowed_origins: self.allowed_origins.deep_view(),
            hosts_validation_disabled: self.hosts_validation_disabled,
            cancellation_token: self.cancellation_token,
            max_request_body_bytes: self.max_request_body_bytes,
            stateless_protocol_metadata_required: self.stateless_protocol_metadata_required,
        }
    }
}

/// The settings an MCP service starts with: mounted at `/mcp`, sessions for
/// legacy protocol versions, event streams rather than plain JSON, no
/// keep-alive or retry interval, the loopback `Host` default, no `Origin`
/// check, and a 4 MiB body limit.
pub open spec fn default_mcp_config() -> McpConfigView {
    McpConfigView {
        service_path: seq!['/', 'm', 'c', 'p'],
        legacy_session_mode: true,
        json_response: false,
        sse_keep_alive: None,
        sse_retry: None,
        allowed_hosts: Seq::empty(),
        allowed_origins: Seq::empty(),
        hosts_validation_disabled: false,
        cancellation_token: None,
        max_request_body_bytes: DEFAULT_MAX_REQUEST_BODY_BYTES,
        stateless_protocol_metadata_required: false,
    }
}

/// The settings after `with_allowed_hosts(hosts)`.
pub open spec fn allow_hosts(config: McpConfigView, hosts: Seq<Seq<char>>) -> McpConfigView {
    McpConfigView { allowed_hosts: hosts, hosts_validation_disabled: false, ..config }
}

/// The settings after `disable_allowed_hosts()`.
pub open spec fn allow_any_host(config: McpConfigView) -> McpConfigView {
    McpConfigView { allowed_hosts: Seq::empty(), hosts_validation_disabled: true, ..config }
}

/// The `Host` allowlist the service enforces: an explicit list when one is
/// given, no check when validation was disabled, and otherwise the
/// loopback hosts. An empty list means any host is accepted.
pub open spec fn effective_allowed_hosts(config: McpConfigView) -> Seq<Seq<char>> {
    if config.allowed_hosts.len() > 0 {
        config.allowed_hosts
    } else if config.hosts_validation_disabled {
        Seq::empty()
    } else {
        loopback_hosts()
    }
}

/// `s` without its trailing `/` characters.
pub open spec fn strip_trailing_slashes(s: Seq<char>) -> Seq<char>
    decreases s.len(),
{
    if s.len() > 0 && s.last() == '/' {
        strip_trailing_slashes(s.drop_last())
    } else {
        s
    }
}

/// The mount path of the service: the configured path trimmed, without
/// trailing slashes, and starting with a slash; `/` when only slashes are
/// left; `None` when the configured path is blank.
pub open spec fn normalized_service_path(path: Seq<char>) -> Option<Seq<char>> {
    let trimmed = trim(path);
    if trimmed.len() == 0 {
        None
    } else {
        let stripped = strip_trailing_slashes(trimmed);
        if stripped.len() == 0 {
            Some(seq!['/'])
        } else if stripped[0] == '/' {
            Some(stripped)
        } else {
            Some(seq!['/'] + stripped)
        }
    }
}

/// Dropping `k` trailing slashes does not change `strip_trailing_slashes`.
proof fn lemma_strip_skip(s: Seq<char>, k: int)
    requires
        0 <= k <= s.len(),
        forall|i: int| s.len() - k <= i < s.len() ==> #[trigger] s[i] == '/',
    ensures
        strip_trailing_slashes(s) == strip_trailing_slashes(s.subrange(0, s.len() - k)),
    decreases k,
{
    if k > 0 {
        let t = s.drop_last();
        lemma_strip_skip(t, k - 1);
        assert(t.subrange(0, t.len() - (k - 1)) =~= s.subrange(0, s.len() - k));
    } else {
        assert(s.subrange(0, s.len() as int) =~= s);
    }
}

/// `strip_trailing_slashes` keeps a prefix whose last character is not `/`.
proof fn lemma_strip_shape(s: Seq<char>)
    ensures
        strip_trailing_slashes(s).len() <= s.len(),
        strip_trailing_slashes(s) =~= s.subrange(0, strip_trailing_slashes(s).len() as int),
        strip_trailing_slashes(s).len() > 0 ==> strip_trailing_slashes(s).last() != '/',
    decreases s.len(),
{
    if s.len() > 0 && s.last() == '/' {
        lemma_strip_shape(s.drop_last());
    }
}

/// Where the service is mounted in a router.
#[derive(Clone, Debug, PartialEq, Eq)]
pub enum RouterMount {
    /// The service handles every path.
    Root,
    /// The service is nested under this path.
    Nested(String),
}

/// The rmcp Streamable HTTP settings of an MCP `ServerConfig`, field for
/// field those of rmcp's `StreamableHttpServerConfig` that it sets.
#[derive(Clone, Debug)]
pub struct RmcpSettings {
    pub sse_keep_alive: Option<Duration>,
    pub sse_retry: Option<Duration>,
    pub legacy_session_mode: bool,
    pub json_response: bool,
    pub allowed_hosts: Vec<String>,
    pub allowed_origins: Vec<String>,
    pub max_request_body_bytes: usize,
    pub stateless_protocol_metadata_required: bool,
    pub cancellation_token: Option<CancellationToken>,
}

/// Holds when `settings` are the rmcp settings of `config`.
pub open spec fn is_rmcp_form_of(config: McpConfigView, settings: RmcpSettings) -> bool {
    &&& settings.sse_keep_alive == config.sse_keep_alive
    &&& settings.sse_retry == config.sse_retry
    &&& settings.legacy_session_mode == config.legacy_session_mode
    &&& settings.json_response == config.json_response
    &&& settings.allowed_hosts.deep_view() == effective_allowed_hosts(config)
    &&& settings.allowed_origins.deep_view() == config.allowed_origins
    &&& settings.max_request_body_bytes == config.max_request_body_bytes
    &&& settings.stateless_protocol_metadata_required == config.stateless_protocol_metadata_required
    &&& (settings.cancellation_token is Some <==> config.cancellation_token is Some)
}

impl Default for ServerConfig {
    fn default() -> (config: ServerConfig)
        ensures
            config@ == default_mcp_config(),
    {
        let path = String::from_str("/mcp");
        proof {
            reveal_strlit("/mcp");
        }
        let config = ServerConfig {
            service_path: path,
            legacy_session_mode: true,
            json_response: false,
            sse_keep_alive: None,
            sse_retry: None,
            allowed_hosts: Vec::new(),
            allowed_origins: Vec::new(),
            hosts_validation_disabled: false,
            cancellation_token: None,
            max_request_body_bytes: DEFAULT_MAX_REQUEST_BODY_BYTES,
            stateless_protocol_metadata_required: false,
        };
        assert(config.allowed_hosts.deep_view() =~= Seq::<Seq<char>>::empty());
        assert(config.allowed_origins.deep_view() =~= Seq::<Seq<char>>::empty());
        assert(config@.service_path =~= seq!['/', 'm', 'c', 'p']);
        config
    }
}

impl ServerConfig {
    /// The default settings.
    pub fn new() -> (config: ServerConfig)
        ensures
            config@ == default_mcp_config(),
    {
        ServerConfig::default()
    }

    /// Sets the path the service is mounted at.
    pub fn with_service_path(self, service_path: &str) -> (config: ServerConfig)
        ensures
            config@ == (McpConfigView { service_path: service_path@, ..self@ }),
    {
        ServerConfig { service_path: String::from_str(service_path), ..self }
    }

    /// Whether clients that negotiate a protocol version before
    /// `2026-07-28` get MCP sessions. Newer clients are always served
    /// statelessly.
    pub fn with_legacy_session_mode(self, legacy_session_mode: bool) -> (config: ServerConfig)
        ensures
            config@ == (McpConfigView { legacy_session_mode, ..self@ }),
    {
        ServerConfig { legacy_session_mode, ..self }
    }

    /// The former name of `with_legacy_session_mode`, with the same effect.
    pub fn with_stateful_mode(self, stateful_mode: bool) -> (config: ServerConfig)
        ensures
            config@ == (McpConfigView { legacy_session_mode: stateful_mode, ..self@ }),
    {
        self.with_legacy_session_mode(stateful_mode)
    }

    /// Prefer plain JSON responses for simple request-response tools in
    /// stateless mode.
    pub fn with_json_response(self, json_response: bool) -> (config: ServerConfig)
        ensures
            config@ == (McpConfigView { json_response, ..self@ }),
    {
        ServerConfig { json_response, ..self }
    }

    /// Sets the keep-alive ping interval of event streams.
    pub fn with_sse_keep_alive(self, sse_keep_alive: Duration) -> (config: ServerConfig)
        ensures
            config@ == (McpConfigView { sse_keep_alive: Some(sse_keep_alive), ..self@ }),
    {
        ServerConfig { sse_keep_alive: Some(sse_keep_alive), ..self }
    }

    /// Sets the retry interval announced to event-stream clients.
    pub fn with_sse_retry(self, sse_retry: Duration) -> (config: ServerConfig)
        ensures
            config@ == (McpConfigView { sse_retry: Some(sse_retry), ..self@ }),
    {
        ServerConfig { sse_retry: Some(sse_retry), ..self }
    }

    /// Restricts inbound `Host` headers to these hostnames or `host:port`
    /// authorities. The last host setting wins; an empty list keeps the
    /// loopback default.
    pub fn with_allowed_hosts(self, allowed_hosts: &[&str]) -> (config: ServerConfig)
        ensures
            config@ == allow_hosts(self@, str_views(allowed_hosts@)),
    {
        ServerConfig {
            allowed_hosts: strings_from(allowed_hosts),
            hosts_validation_disabled: false,
            ..self
        }
    }

    /// Accepts any `Host` header. Not recommended for public deployments.
    pub fn disable_allowed_hosts(self) -> (config: ServerConfig)
        ensures
            config@ == allow_any_host(self@),
    {
        let config = ServerConfig {
            allowed_hosts: Vec::new(),
            hosts_validation_disabled: true,
            ..self
        };
        assert(config.allowed_hosts.deep_view() =~= Seq::<Seq<char>>::empty());
        config
    }

    /// Restricts inbound browser `Origin` headers; requests without an
    /// `Origin` header are unaffected.
    pub fn with_allowed_origins(self, allowed_origins: &[&str]) -> (config: ServerConfig)
        ensures
            config@ == (McpConfigView { allowed_origins: str_views(allowed_origins@), ..self@ }),
    {
        ServerConfig { allowed_origins: strings_from(allowed_origins), ..self }
    }

    /// Turns `Origin` validation off again.
    pub fn disable_allowed_origins(self) -> (config: ServerConfig)
        ensures
            config@ == (McpConfigView { allowed_origins: Seq::empty(), ..self@ }),
    {
        let config = ServerConfig { allowed_origins: Vec::new(), ..self };
        assert(config.allowed_origins.deep_view() =~= Seq::<Seq<char>>::empty());
        config
    }

    /// Stops all sessions and new requests when the token is cancelled.
    pub fn with_cancellation_token(self, cancellation_token: CancellationToken) -> (config:
        ServerConfig)
        ensures
            config@ == (McpConfigView { cancellation_token: Some(cancellation_token), ..self@ }),
    {
        ServerConfig { cancellation_token: Some(cancellation_token), ..self }
    }

    /// Sets the maximum POST request body size in bytes.
    pub fn with_max_request_body_bytes(self, bytes: usize) -> (config: ServerConfig)
        ensures
            config@ == (McpConfigView { max_request_body_bytes: bytes, ..self@ }),
    {
        ServerConfig { max_request_body_bytes: bytes, ..self }
    }

    /// Requires stateless JSON-RPC request POSTs to carry per-request
    /// protocol signals.
    pub fn with_stateless_protocol_metadata_required(self, required: bool) -> (config:
        ServerConfig)
        ensures
            config@ == (McpConfigView { stateless_protocol_metadata_required: required, ..self@ }),
    {
        ServerConfig { stateless_protocol_metadata_required: required, ..self }
    }

    /// The normalised mount path; `InvalidServicePath` with the configured
    /// path when that is blank.
    pub fn service_path(&self) -> (path: Result<String, McpServerError>)
        ensures
            match normalized_service_path(self@.service_path) {
                Some(p) => path matches Ok(q) && q@ == p,
                None => path matches Err(e) && e@ == McpFault::InvalidServicePath(
                    self@.service_path,
                ),
            },
    {
        let raw = self.service_path.as_str();
        let (start, end) = trim_bounds(raw);
        if start == end {
            return Err(McpServerError::InvalidServicePath(self.service_path.clone()));
        }
        let ghost trimmed = trim(raw@);
        let mut stop: usize = end;
        while stop > start && raw.get_char(stop - 1) == '/'
            invariant
                start < end <= raw@.len(),
                start <= stop <= end,
                trimmed == raw@.subrange(start as int, end as int),
                forall|i: int| stop <= i < end ==> #[trigger] raw@[i] == '/',
            decreases stop - start,
        {
            stop = stop - 1;
        }
        proof {
            assert forall|i: int|
                trimmed.len() - (end - stop) <= i < trimmed.len() implies #[trigger] trimmed[i]
                == '/' by {
                assert(trimmed[i] == raw@[start + i]);
            }
            lemma_strip_skip(trimmed, (end - stop) as int);
            let u = trimmed.subrange(0, trimmed.len() - (end - stop));
            assert(u =~= raw@.subrange(start as int, stop as int));
            if stop > start {
                assert(u.last() == raw@[stop - 1]);
            }
            assert(strip_trailing_slashes(u) == u);
        }
        let slash = "/";
        proof {
            reveal_strlit("/");
        }
        if stop == start {
            assert(slash@ =~= seq!['/']);
            Ok(String::from_str(slash))
        } else if raw.get_char(start) == '/' {
            Ok(String::from_str(raw.substring_char(start, stop)))
        } else {
            let normalized = String::from_str(slash).concat(raw.substring_char(start, stop));
            assert(normalized@ =~= seq!['/'] + raw@.subrange(start as int, stop as int));
            Ok(normalized)
        }
    }

    /// Where a router mounts the service: at the root for `/`, nested under
    /// the normalised path otherwise.
    pub fn router_mount(&self) -> (mount: Result<RouterMount, McpServerError>)
        ensures
            match normalized_service_path(self@.service_path) {
                Some(p) => if p == seq!['/'] {
                    mount == Ok::<RouterMount, McpServerError>(RouterMount::Root)
                } else {
                    mount matches Ok(RouterMount::Nested(q)) && q@ == p
                },
                None => mount matches Err(e) && e@ == McpFault::InvalidServicePath(
                    self@.service_path,
                ),
            },
    {
        let path = match self.service_path() {
            Ok(p) => p,
            Err(e) => {
                return Err(e);
            },
        };
        if path.as_str().unicode_len() == 1 && path.as_str().get_char(0) == '/' {
            assert(path@ =~= seq!['/']);
            Ok(RouterMount::Root)
        } else {
            Ok(RouterMount::Nested(path))
        }
    }

    /// The rmcp Streamable HTTP settings these settings map to.
    pub fn rmcp_settings(&self) -> (settings: RmcpSettings)
        ensures
            is_rmcp_form_of(self@, settings),
    {
        let defaults = rmcp_defaults();
        let allowed_hosts = if self.allowed_hosts.len() > 0 {
            self.allowed_hosts.clone()
        } else if self.hosts_validation_disabled {
            let none: Vec<String> = Vec::new();
            assert(none.deep_view() =~= Seq::<Seq<char>>::empty());
            none
        } else {
            defaults.allowed_hosts
        };
        let allowed_origins = if self.allowed_origins.len() > 0 {
            self.allowed_origins.clone()
        } else {
            defaults.allowed_origins
        };
        proof {
            assert(self.allowed_hosts.len() == 0 ==> self@.allowed_hosts =~= Seq::<
                Seq<char>,
            >::empty());
            assert(self.allowed_origins.len() == 0 ==> self@.allowed_origins =~= Seq::<
                Seq<char>,
            >::empty());
        }
        let cancellation_token = match &self.cancellation_token {
            Some(token) => Some(token.clone()),
            None => None,
        };
        RmcpSettings {
            sse_keep_alive: self.sse_keep_alive,
            sse_retry: self.sse_retry,
            legacy_session_mode: self.legacy_session_mode,
            json_response: self.json_response,
            allowed_hosts,
            allowed_origins,
            max_request_body_bytes: self.max_request_body_bytes,
            stateless_protocol_metadata_required: self.stateless_protocol_metadata_required,
            cancellation_token,
        }
    }

    /// rmcp's Streamable HTTP configuration for these settings: its defaults,
    /// with each of `rmcp_settings` passed to the matching setter, and the
    /// cancellation token where one is set. No session store is set in it.
    pub fn to_rmcp_config(&self) -> (config: RmcpConfig)
        ensures
            is_rmcp_form_of(self@, config.settings()),
            !config.has_session_store(),
    {
        let settings = self.rmcp_settings();
        let config = rmcp_config(&settings);
        match settings.cancellation_token {
            Some(token) => rmcp_with_cancellation_token(config, token),
            None => config,
        }
    }
}

/// Law: by default the service accepts only the loopback `Host` headers.
pub proof fn lemma_default_hosts_are_loopback()
    ensures
        effective_allowed_hosts(default_mcp_config()) == loopback_hosts(),
{
}

/// Law: an empty host allowlist keeps the loopback default.
pub proof fn lemma_empty_host_list_keeps_loopback(config: McpConfigView)
    ensures
        effective_allowed_hosts(allow_hosts(config, Seq::empty())) == loopback_hosts(),
{
}

/// Law: the host settings are last-call-wins. A list given after disabling
/// validation is enforced as if validation had never been disabled, and
/// disabling after a list accepts any host.
pub proof fn lemma_host_settings_last_call_wins(config: McpConfigView, hosts: Seq<Seq<char>>)
    ensures
        effective_allowed_hosts(allow_hosts(allow_any_host(config), hosts))
            == effective_allowed_hosts(allow_hosts(config, hosts)),
        effective_allowed_hosts(allow_any_host(allow_hosts(config, hosts))) == Seq::<
            Seq<char>,
        >::empty(),
        hosts.len() > 0 ==> effective_allowed_hosts(allow_hosts(config, hosts)) == hosts,
{
}

/// Law: a normalised mount path starts with `/`, and is either `/` itself or
/// does not end with `/`.
pub proof fn lemma_service_path_shape(path: Seq<char>)
    ensures
        normalized_service_path(path) matches Some(p) ==> p.len() > 0 && p[0] == '/' && (p
            == seq!['/'] || p.last() != '/'),
{
    let trimmed = trim(path);
    if trimmed.len() > 0 {
        let stripped = strip_trailing_slashes(trimmed);
        lemma_strip_shape(trimmed);
        if stripped.len() > 0 && stripped[0] != '/' {
            let p = seq!['/'] + stripped;
            assert(p.last() == stripped.last());
        }
    }
}

/// Law: normalising a mount path a second time changes nothing, unless
/// removing the trailing slashes left white space at the end (as in
/// `"a /"`), which the second pass trims.
pub proof fn lemma_service_path_idempotent(path: Seq<char>)
    requires
        normalized_service_path(path) is Some,
        !crate::text::is_white_space(normalized_service_path(path).unwrap().last()),
    ensures
        normalized_service_path(normalized_service_path(path).unwrap()) == normalized_service_path(
            path,
        ),
{
    let p = normalized_service_path(path).unwrap();
    lemma_service_path_shape(path);
    assert(!crate::text::is_white_space(p[0]));
    crate::text::lemma_trim_fixed(p);
    if p.last() != '/' {
        assert(strip_trailing_slashes(p) == p);
    } else {
        assert(p == seq!['/']);
        assert(p.drop_last().len() == 0);
        assert(strip_trailing_slashes(p) == strip_trailing_slashes(p.drop_last()));
    }
}

/// Law: the rmcp settings of an MCP configuration carry each of its
/// settings unchanged: SSE timings, session mode, JSON responses, the Host
/// allowlist when one is listed (otherwise none when host checking is
/// disabled, else the loopback hosts), the Origin allowlist, the body-size limit whatever its value, the metadata
/// requirement, and a cancellation token exactly when one is set.
pub proof fn lemma_rmcp_settings_carry_config(config: McpConfigView, settings: RmcpSettings)
    requires
        is_rmcp_form_of(config, settings),
    ensures
        settings.sse_keep_alive == config.sse_keep_alive,
        settings.sse_retry == config.sse_retry,
        settings.legacy_session_mode == config.legacy_session_mode,
        settings.json_response == config.json_response,
        settings.allowed_origins.deep_view() == config.allowed_origins,
        settings.max_request_body_bytes == config.max_request_body_bytes,
        settings.stateless_protocol_metadata_required == config.stateless_protocol_metadata_required,
        settings.cancellation_token is Some <==> config.cancellation_token is Some,
        config.allowed_hosts.len() > 0 ==> settings.allowed_hosts.deep_view() == config.allowed_hosts,
        config.allowed_hosts.len() == 0 && config.hosts_validation_disabled
            ==> settings.allowed_hosts.deep_view().len() == 0,
        config.allowed_hosts.len() == 0 && !config.hosts_validation_disabled
            ==> settings.allowed_hosts.deep_view() == seq![
            seq!['l', 'o', 'c', 'a', 'l', 'h', 'o', 's', 't'],
            seq!['1', '2', '7', '.', '0', '.', '0', '.', '1'],
            seq![':', ':', '1'],
        ],
{
}

/// Law: whatever body-size limit is set, the rmcp settings carry that limit.
pub proof fn lemma_body_limit_passed_through(
    config: McpConfigView,
    bytes: usize,
    settings: RmcpSettings,
)
    requires
        is_rmcp_form_of(McpConfigView { max_request_body_bytes: bytes, ..config }, settings),
    ensures
        settings.max_request_body_bytes == bytes,
{
}

} // verus!
