//! Server bootstrap configuration: listen address, CORS, TLS and MCP
//! Streamable HTTP settings, each checked before a server is started.
mod config;
mod error;
mod http_syntax;
pub mod mcp;
mod middleware;
mod rmcp_build;
mod text;
mod tls;
mod tls_build;

pub use config::{
    CorsConfig, ServerConfig, TlsConfig, ValidatedServerConfig, ValidatedTlsConfig,
    DEFAULT_LISTEN_ADDR,
};
pub use error::{ServerConfigError, ServerError, TlsConfigLoadError};
pub use middleware::{build_cors, build_cors_layer, ActixCors, CorsLayerConfig};
pub use text::normalize_listen_addr;
pub use tls::{server_tls_config, tls_server_config, FileContents, TlsFiles};
pub use tls_build::{BuiltTlsConfig, TlsBuild};
