use cloudiful_server::{
    normalize_listen_addr, tls_server_config, BuiltTlsConfig, CorsConfig, FileContents, ServerConfig,
    ServerConfigError, TlsConfig, TlsConfigLoadError, TlsFiles, ValidatedTlsConfig,
    DEFAULT_LISTEN_ADDR,
};

/// The files of a TLS setup as read from a file system that holds no files.
fn read_tls_files(tls: &ValidatedTlsConfig) -> TlsFiles {
    let missing = || FileContents::Unopened(std::io::Error::from(std::io::ErrorKind::NotFound));
    TlsFiles {
        certificate: missing(),
        private_key: missing(),
        client_ca: tls.client_ca().map(|_| missing()),
    }
}

#[test]
fn requires_tls_key_path_when_tls_is_enabled() {
    let err = ServerConfig::new()
        .with_tls(TlsConfig::new().with_cert_path("cert.pem"))
        .build()
        .unwrap_err();

    assert_eq!(err, ServerConfigError::MissingTlsKeyPath);
}

#[test]
fn allows_http_configuration_without_tls() {
    let config = ServerConfig::new()
        .with_listen_addr("127.0.0.1:8081")
        .build()
        .unwrap();

    assert_eq!(config.listen_addr(), "127.0.0.1:8081");
    assert!(!config.tls_enabled());
}

#[test]
fn listen_addr_with_only_port_uses_wildcard_host() {
    let config = ServerConfig::new()
        .with_listen_addr(":8081")
        .build()
        .unwrap();

    assert_eq!(config.listen_addr(), "0.0.0.0:8081");
}

#[test]
fn normalize_listen_addr_preserves_explicit_host() {
    assert_eq!(normalize_listen_addr("127.0.0.1:8081"), "127.0.0.1:8081");
    assert_eq!(normalize_listen_addr(" 0.0.0.0:8081 "), "0.0.0.0:8081");
}

#[test]
fn restricted_cors_requires_valid_methods() {
    let err = ServerConfig::new()
        .with_cors(
            CorsConfig::restricted(&["https://allowed.example"])
                .with_allowed_methods(&["BAD METHOD"]),
        )
        .build()
        .unwrap_err();

    assert_eq!(
        err,
        ServerConfigError::InvalidCorsMethod("BAD METHOD".to_string())
    );
}

#[test]
fn tests_invalid_tls_paths_return_errors_without_panicking() {
    let config = ServerConfig::new()
        .with_tls(
            TlsConfig::new()
                .with_cert_path("missing-cert.pem")
                .with_cert_key_path("missing-key.pem"),
        )
        .build()
        .unwrap();

    let tls = config.tls().unwrap();
    let err = tls_server_config(tls, read_tls_files(tls)).map(BuiltTlsConfig::into_rustls).unwrap_err();

    match err {
        TlsConfigLoadError::OpenCertificate { path, .. } => {
            assert_eq!(path, "missing-cert.pem".to_string());
        }
        other => panic!("unexpected error: {other:?}"),
    }
}

#[test]
fn tls_config_can_include_client_ca_path() {
    let tls = TlsConfig::new()
        .with_cert_path("cert.pem")
        .with_cert_key_path("key.pem")
        .with_client_ca("ca.pem");

    assert_eq!(tls.client_ca(), Some("ca.pem"));
    assert_eq!(tls.client_ca_path(), Some("ca.pem"));
}

#[test]
fn default_config_listens_on_loopback_with_permissive_cors() {
    let config = ServerConfig::new().build().unwrap();
    assert_eq!(config.listen_addr(), DEFAULT_LISTEN_ADDR);
    assert_eq!(config.listen_addr(), "127.0.0.1:3000");
    assert!(config.cors().is_permissive());
    assert!(config.cors().allowed_origins().is_empty());
    assert!(config.cors().allowed_methods().is_empty());
    assert_eq!(config.cors().max_age(), None);
    assert!(config.app_data().is_none());
    assert_eq!(config.tls_paths(), None);
}

#[test]
fn blank_listen_addr_is_refused() {
    let err = ServerConfig::new().with_listen_addr(" \t ").build().unwrap_err();
    assert_eq!(err, ServerConfigError::MissingListenAddr);
    assert_eq!(err.message(), "listen_addr must not be empty");
}

#[test]
fn listen_addr_trims_unicode_white_space() {
    assert_eq!(normalize_listen_addr("\u{3000}:9000\u{00A0}\n"), "0.0.0.0:9000");
    assert_eq!(normalize_listen_addr("   "), "");
    assert_eq!(normalize_listen_addr(":"), "0.0.0.0:");
}

#[test]
fn normalizing_twice_is_normalizing_once() {
    for addr in [" :8080 ", "host:1", "\t\n", ":", " a b "] {
        let once = normalize_listen_addr(addr);
        assert_eq!(normalize_listen_addr(&once), once);
        assert_eq!(once.trim(), once);
    }
}

#[test]
fn restricted_cors_defaults_to_get_post_and_one_hour() {
    let cors = CorsConfig::restricted(&["https://a.example", "https://b.example"]);
    assert!(!cors.is_permissive());
    assert_eq!(cors.allowed_origins(), ["https://a.example", "https://b.example"]);
    assert_eq!(cors.allowed_methods(), ["GET", "POST"]);
    assert_eq!(cors.max_age(), Some(3600));
    assert!(cors.validate().is_ok());
    let cors = cors.with_max_age(60).with_allowed_methods(&["PUT"]);
    assert_eq!(cors.max_age(), Some(60));
    assert_eq!(cors.allowed_methods(), ["PUT"]);
}

#[test]
fn restricted_cors_without_origins_is_refused() {
    let err = ServerConfig::new()
        .with_cors(CorsConfig::restricted(&[]))
        .build()
        .unwrap_err();
    assert_eq!(err, ServerConfigError::MissingCorsOrigins);
    assert_eq!(
        err.message(),
        "restricted CORS configuration requires at least one origin"
    );
}

#[test]
fn restricted_cors_reports_first_invalid_origin() {
    let err = CorsConfig::restricted(&["https://ok.example", "bad\u{7f}origin", "also\nbad"])
        .validate()
        .unwrap_err();
    assert_eq!(
        err,
        ServerConfigError::InvalidCorsOrigin("bad\u{7f}origin".to_string())
    );
    assert_eq!(err.message(), "restricted CORS origin is invalid: bad\u{7f}origin");
}

#[test]
fn origins_are_checked_before_methods() {
    let err = CorsConfig::restricted(&["bad\norigin"])
        .with_allowed_methods(&[])
        .validate()
        .unwrap_err();
    assert_eq!(err, ServerConfigError::InvalidCorsOrigin("bad\norigin".to_string()));
}

#[test]
fn restricted_cors_without_methods_is_refused() {
    let err = CorsConfig::restricted(&["https://ok.example"])
        .with_allowed_methods(&[])
        .validate()
        .unwrap_err();
    assert_eq!(err, ServerConfigError::MissingCorsMethods);
    assert_eq!(
        err.message(),
        "restricted CORS configuration requires at least one method"
    );
}

#[test]
fn extension_methods_and_non_ascii_origins_are_accepted() {
    assert!(CorsConfig::restricted(&["https://bücher.example\ttab"])
        .with_allowed_methods(&["PROPFIND", "X-CUSTOM_1!", "#$%&'*+-.^_`|~"])
        .validate()
        .is_ok());
    let err = CorsConfig::restricted(&["https://ok.example"])
        .with_allowed_methods(&["GET", "PÖST"])
        .validate()
        .unwrap_err();
    assert_eq!(err, ServerConfigError::InvalidCorsMethod("PÖST".to_string()));
    assert_eq!(err.message(), "restricted CORS method is invalid: PÖST");
}

#[test]
fn permissive_cors_is_always_valid() {
    assert!(CorsConfig::permissive().validate().is_ok());
    assert!(CorsConfig::default().is_permissive());
    assert!(CorsConfig::permissive().with_allowed_methods(&["BAD METHOD"]).validate().is_ok());
}

#[test]
fn listen_addr_is_checked_before_cors_and_tls() {
    let err = ServerConfig::new()
        .with_listen_addr("")
        .with_cors(CorsConfig::restricted(&[]))
        .with_tls(TlsConfig::new())
        .build()
        .unwrap_err();
    assert_eq!(err, ServerConfigError::MissingListenAddr);
    let err = ServerConfig::new()
        .with_cors(CorsConfig::restricted(&[]))
        .with_tls(TlsConfig::new())
        .build()
        .unwrap_err();
    assert_eq!(err, ServerConfigError::MissingCorsOrigins);
}

#[test]
fn tls_requires_cert_path_first() {
    let err = ServerConfig::new()
        .with_tls(TlsConfig::new().with_cert_key_path("key.pem"))
        .build()
        .unwrap_err();
    assert_eq!(err, ServerConfigError::MissingTlsCertPath);
    assert_eq!(err.message(), "TLS configuration requires cert_path");
    assert_eq!(
        ServerConfigError::MissingTlsKeyPath.message(),
        "TLS configuration requires cert_key_path"
    );
}

#[test]
fn built_config_keeps_tls_paths_and_app_data() {
    let config = ServerConfig::new()
        .with_listen_addr(" 10.0.0.1:443 ")
        .with_tls(
            TlsConfig::new()
                .with_cert_path("server.crt")
                .with_cert_key_path("server.key")
                .with_client_ca_path("clients.crt"),
        )
        .with_app_data(42u32)
        .build()
        .unwrap();
    assert_eq!(config.listen_addr(), "10.0.0.1:443");
    assert!(config.tls_enabled());
    assert_eq!(config.tls_paths(), Some(("server.crt", "server.key")));
    assert_eq!(config.app_data(), Some(&42u32));
    let tls = config.tls().unwrap();
    assert_eq!(tls.client_ca(), Some("clients.crt"));
}

#[test]
fn tls_builder_getters_report_what_was_set() {
    let tls = TlsConfig::new();
    assert_eq!(tls.cert_path(), None);
    assert_eq!(tls.cert_key_path(), None);
    assert_eq!(tls.client_ca(), None);
    let tls = tls.with_cert_path("a").with_cert_key_path("b");
    assert_eq!(tls.cert_path(), Some("a"));
    assert_eq!(tls.cert_key_path(), Some("b"));
    assert_eq!(TlsConfig::default(), TlsConfig::new());
}

#[test]
fn tls_and_server_errors_describe_themselves() {
    let err = TlsConfigLoadError::MissingPrivateKey {
        path: "key.pem".to_string(),
    };
    assert_eq!(err.message(), "no TLS private key found in key.pem");
    assert_eq!(err.path(), Some("key.pem"));

    let err = TlsConfigLoadError::OpenCertificate {
        path: "cert.pem".to_string(),
        source: std::io::Error::new(std::io::ErrorKind::NotFound, "gone"),
    };
    assert_eq!(err.message(), "failed to open TLS certificate at cert.pem: gone");
    let server_err = cloudiful_server::ServerError::Tls(err);
    assert_eq!(
        server_err.message(),
        "failed to open TLS certificate at cert.pem: gone"
    );

    let server_err: cloudiful_server::ServerError = ServerConfigError::MissingCorsMethods.into();
    assert_eq!(
        server_err.message(),
        "restricted CORS configuration requires at least one method"
    );
    let io_err: cloudiful_server::ServerError =
        std::io::Error::new(std::io::ErrorKind::AddrInUse, "busy").into();
    assert_eq!(io_err.message(), "busy");
}

#[test]
fn server_errors_expose_what_they_carry() {
    let config = cloudiful_server::ServerError::from(ServerConfigError::MissingListenAddr);
    assert_eq!(config.config_error(), Some(&ServerConfigError::MissingListenAddr));
    assert!(config.io_error().is_none());
    assert!(config.tls_error().is_none());

    let io = cloudiful_server::ServerError::from(std::io::Error::from(
        std::io::ErrorKind::AddrInUse,
    ));
    assert_eq!(io.io_error().unwrap().kind(), std::io::ErrorKind::AddrInUse);
    assert!(io.config_error().is_none());

    let tls = cloudiful_server::ServerError::from(TlsConfigLoadError::MissingPrivateKey {
        path: "key.pem".to_string(),
    });
    assert_eq!(tls.tls_error().unwrap().path(), Some("key.pem"));
    assert!(tls.io_error().is_none());
}

#[test]
fn origin_with_a_control_character_is_refused() {
    let err = ServerConfig::new()
        .with_cors(CorsConfig::restricted(&["http://x/#\u{7f}"]))
        .build()
        .unwrap_err();
    assert_eq!(err, ServerConfigError::InvalidCorsOrigin("http://x/#\u{7f}".to_string()));
}
