[package]
name = "cloudiful_server"
version = "0.1.0"
edition = "2021"
publish = false

[dependencies]
http = "1"
rustls = "0.23"
rustls-pemfile = "2"
actix-web = { version = "4", features = ["rustls-0_23"] }
actix-cors = "0.7"
axum = "0.8"
axum-server = { version = "*", features = ["tls-rustls"] }
tower-http = { version = "0.6", features = ["cors"] }
tokio = { version = "1", features = ["full"] }
tokio-util = "0.7"
rmcp = { version = "*", features = ["server", "macros", "transport-io", "transport-streamable-http-server"] }
log = "0.4"

[dev-dependencies]
tower = { version = "0.5", features = ["util"] }
rcgen = "*"
