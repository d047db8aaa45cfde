# cloudiful_server

Server bootstrap configuration for Actix, Axum and MCP Streamable HTTP
services: listen address, CORS policy, TLS (with optional client
certificates) and the MCP transport settings, each checked before a server
starts.

## Layout

- `src/` — the library, written in Verus and proved:
  - `text.rs`: Unicode white space, trimming, listen-address normalisation.
  - `http_syntax.rs`: what `http` accepts as a header value and a method.
  - `config.rs`: `CorsConfig`, `TlsConfig`, `ServerConfig` and the `build`
    step with its exact failure rules, plus the laws about them.
  - `error.rs`: configuration, TLS-loading and server errors and their texts.
  - `tls.rs`: building a rustls server configuration from the PEM files.
  - `middleware.rs`: the Actix and Tower CORS middleware of a policy.
  - `mcp.rs`: MCP service settings, mount path, host policy and the rmcp
    settings they map to.
- `app/` — plain Rust around the library: reading the TLS files, binding
  sockets, running the servers, and holding the rmcp session and event
  stores.
- `tests/` — tests of the library through its public API.
