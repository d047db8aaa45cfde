use cloudiful_server::{
    server_tls_config, tls_server_config, BuiltTlsConfig, FileContents, ServerConfig, ServerError,
    TlsConfig, TlsConfigLoadError, TlsFiles, ValidatedTlsConfig,
};
use rcgen::{
    BasicConstraints, CertificateParams, DistinguishedName, DnType, ExtendedKeyUsagePurpose, IsCa,
    Issuer, KeyPair, KeyUsagePurpose,
};
use rustls::pki_types::{CertificateDer, PrivateKeyDer, PrivatePkcs8KeyDer, ServerName};

/// Certificates and keys made for one test, held in memory as the PEM
/// files a deployment would keep on disk.
struct TlsArtifacts {
    server_cert: String,
    server_key: String,
    client_ca: String,
    client_key: PrivateKeyDer<'static>,
    client_cert: CertificateDer<'static>,
}

const SERVER_CERT_PATH: &str = "/etc/cloudiful/tls/server.crt";
const SERVER_KEY_PATH: &str = "/etc/cloudiful/tls/server.key";
const CLIENT_CA_PATH: &str = "/etc/cloudiful/tls/client-ca.crt";

fn write_tls_artifacts() -> TlsArtifacts {
    let mut ca_params = CertificateParams::new(Vec::<String>::new()).unwrap();
    ca_params.is_ca = IsCa::Ca(BasicConstraints::Unconstrained);
    ca_params.distinguished_name = dn("cloudiful test ca");
    ca_params.key_usages = vec![KeyUsagePurpose::KeyCertSign, KeyUsagePurpose::CrlSign];
    let ca_key = KeyPair::generate().unwrap();
    let ca_cert = ca_params.self_signed(&ca_key).unwrap();
    let ca_issuer = Issuer::new(ca_params.clone(), ca_key);

    let mut server_params = CertificateParams::new(vec!["localhost".to_string()]).unwrap();
    server_params.distinguished_name = dn("cloudiful server");
    server_params.key_usages = vec![
        KeyUsagePurpose::DigitalSignature,
        KeyUsagePurpose::KeyEncipherment,
    ];
    server_params.extended_key_usages = vec![ExtendedKeyUsagePurpose::ServerAuth];
    let server_key = KeyPair::generate().unwrap();
    let server_cert = server_params.signed_by(&server_key, &ca_issuer).unwrap();

    let mut client_params = CertificateParams::new(vec!["localhost".to_string()]).unwrap();
    client_params.distinguished_name = dn("cloudiful client");
    client_params.key_usages = vec![KeyUsagePurpose::DigitalSignature];
    client_params.extended_key_usages = vec![ExtendedKeyUsagePurpose::ClientAuth];
    let client_key = KeyPair::generate().unwrap();
    let client_cert = client_params.signed_by(&client_key, &ca_issuer).unwrap();

    TlsArtifacts {
        server_cert: server_cert.pem(),
        server_key: server_key.serialize_pem(),
        client_ca: ca_cert.pem(),
        client_key: PrivateKeyDer::Pkcs8(PrivatePkcs8KeyDer::from(client_key.serialize_der())),
        client_cert: CertificateDer::from(client_cert.der().to_vec()),
    }
}

fn dn(common_name: &str) -> DistinguishedName {
    let mut dn = DistinguishedName::new();
    dn.push(DnType::CommonName, common_name);
    dn
}

/// What reading `path` gives on a file system that holds exactly `files`.
fn read_file(files: &[(&str, &str)], path: &str) -> FileContents {
    match files.iter().find(|(name, _)| *name == path) {
        Some((_, content)) => FileContents::Read(content.as_bytes().to_vec()),
        None => FileContents::Unopened(std::io::Error::from(std::io::ErrorKind::NotFound)),
    }
}

fn read_tls_files(files: &[(&str, &str)], tls: &ValidatedTlsConfig) -> TlsFiles {
    TlsFiles {
        certificate: read_file(files, tls.cert_path()),
        private_key: read_file(files, tls.cert_key_path()),
        client_ca: tls.client_ca().map(|path| read_file(files, path)),
    }
}

fn standard_files(artifacts: &TlsArtifacts) -> Vec<(&'static str, &str)> {
    vec![
        (SERVER_CERT_PATH, artifacts.server_cert.as_str()),
        (SERVER_KEY_PATH, artifacts.server_key.as_str()),
        (CLIENT_CA_PATH, artifacts.client_ca.as_str()),
    ]
}

fn load(files: &[(&str, &str)], tls: TlsConfig) -> Result<rustls::ServerConfig, TlsConfigLoadError> {
    let config = ServerConfig::new().with_tls(tls).build().unwrap();
    let tls = config.tls().unwrap();
    tls_server_config(tls, read_tls_files(files, tls)).map(BuiltTlsConfig::into_rustls)
}

fn client_roots(artifacts: &TlsArtifacts) -> rustls::RootCertStore {
    let mut roots = rustls::RootCertStore::empty();
    let mut ca_file = artifacts.client_ca.as_bytes();
    let ca_certs = rustls_pemfile::certs(&mut ca_file)
        .collect::<Result<Vec<_>, _>>()
        .unwrap();
    let (added, _) = roots.add_parsable_certificates(ca_certs);
    assert!(added > 0);
    roots
}

fn mutual_tls() -> TlsConfig {
    TlsConfig::new()
        .with_cert_path(SERVER_CERT_PATH)
        .with_cert_key_path(SERVER_KEY_PATH)
        .with_client_ca(CLIENT_CA_PATH)
}

fn server_only_tls() -> TlsConfig {
    TlsConfig::new()
        .with_cert_path(SERVER_CERT_PATH)
        .with_cert_key_path(SERVER_KEY_PATH)
}

#[test]
fn load_tls_config_supports_client_auth_verifier() {
    let artifacts = write_tls_artifacts();
    let files = standard_files(&artifacts);
    assert!(load(&files, mutual_tls()).is_ok());
}

#[test]
fn server_only_tls_still_accepts_clients_without_certificates() {
    let artifacts = write_tls_artifacts();
    let files = standard_files(&artifacts);
    let server_config = load(&files, server_only_tls()).unwrap();
    let roots = client_roots(&artifacts);

    let client_config = rustls::ClientConfig::builder()
        .with_root_certificates(roots)
        .with_no_client_auth();

    assert!(perform_tls_handshake(server_config, client_config).is_ok());
}

#[test]
fn mtls_rejects_clients_without_certificates() {
    let artifacts = write_tls_artifacts();
    let files = standard_files(&artifacts);
    let server_config = load(&files, mutual_tls()).unwrap();
    let roots = client_roots(&artifacts);

    let client_config = rustls::ClientConfig::builder()
        .with_root_certificates(roots)
        .with_no_client_auth();

    assert!(perform_tls_handshake(server_config, client_config).is_err());
}

#[test]
fn mtls_accepts_clients_with_trusted_certificates() {
    let artifacts = write_tls_artifacts();
    let files = standard_files(&artifacts);
    let server_config = load(&files, mutual_tls()).unwrap();
    let roots = client_roots(&artifacts);

    let client_config = rustls::ClientConfig::builder()
        .with_root_certificates(roots)
        .with_client_auth_cert(vec![artifacts.client_cert], artifacts.client_key)
        .unwrap();

    assert!(perform_tls_handshake(server_config, client_config).is_ok());
}

const GARBAGE_PEM: &str = "-----BEGIN CERTIFICATE-----\n!!!!\n-----END CERTIFICATE-----\n";

#[test]
fn missing_key_file_is_reported_before_unreadable_certificates() {
    let artifacts = write_tls_artifacts();
    let files = [("garbage.crt", GARBAGE_PEM), (SERVER_KEY_PATH, artifacts.server_key.as_str())];
    let err = load(
        &files,
        TlsConfig::new()
            .with_cert_path("garbage.crt")
            .with_cert_key_path("missing-key.pem"),
    )
    .unwrap_err();
    match err {
        TlsConfigLoadError::OpenPrivateKey { ref path, .. } => assert_eq!(path, "missing-key.pem"),
        ref other => panic!("unexpected error: {other:?}"),
    }
    assert_eq!(err.path(), Some("missing-key.pem"));

    let err = load(
        &files,
        TlsConfig::new()
            .with_cert_path("garbage.crt")
            .with_cert_key_path(SERVER_KEY_PATH),
    )
    .unwrap_err();
    assert!(matches!(err, TlsConfigLoadError::ReadCertificates { .. }));
    assert_eq!(err.path(), Some("garbage.crt"));
}

#[test]
fn unreadable_files_are_reported_as_read_errors() {
    let artifacts = write_tls_artifacts();
    let config = ServerConfig::new().with_tls(mutual_tls()).build().unwrap();
    let tls = config.tls().unwrap();
    let unread = || FileContents::Unread(std::io::Error::from(std::io::ErrorKind::Interrupted));
    let err = tls_server_config(
        tls,
        TlsFiles {
            certificate: FileContents::Read(artifacts.server_cert.as_bytes().to_vec()),
            private_key: unread(),
            client_ca: Some(unread()),
        },
    )
    .map(BuiltTlsConfig::into_rustls)
    .unwrap_err();
    assert!(matches!(err, TlsConfigLoadError::ReadPrivateKey { .. }));
    assert_eq!(err.path(), Some(SERVER_KEY_PATH));

    let err = tls_server_config(
        tls,
        TlsFiles {
            certificate: FileContents::Read(artifacts.server_cert.as_bytes().to_vec()),
            private_key: FileContents::Read(artifacts.server_key.as_bytes().to_vec()),
            client_ca: Some(unread()),
        },
    )
    .map(BuiltTlsConfig::into_rustls)
    .unwrap_err();
    assert!(matches!(err, TlsConfigLoadError::ReadClientCa { .. }));
    assert_eq!(err.path(), Some(CLIENT_CA_PATH));
}

#[test]
fn key_file_without_a_key_is_reported() {
    let artifacts = write_tls_artifacts();
    let files = standard_files(&artifacts);
    let err = load(
        &files,
        TlsConfig::new()
            .with_cert_path(SERVER_CERT_PATH)
            .with_cert_key_path(SERVER_CERT_PATH),
    )
    .unwrap_err();
    match err {
        TlsConfigLoadError::MissingPrivateKey { path } => assert_eq!(path, SERVER_CERT_PATH),
        other => panic!("unexpected error: {other:?}"),
    }
}

#[test]
fn client_ca_failures_name_the_bundle() {
    let artifacts = write_tls_artifacts();
    let mut files = standard_files(&artifacts);
    let err = load(
        &files,
        server_only_tls().with_client_ca("missing-ca.pem"),
    )
    .unwrap_err();
    match err {
        TlsConfigLoadError::OpenClientCa { path, .. } => assert_eq!(path, "missing-ca.pem"),
        other => panic!("unexpected error: {other:?}"),
    }

    files.push(("empty-ca.crt", "no certificates here\n"));
    let err = load(&files, server_only_tls().with_client_ca("empty-ca.crt")).unwrap_err();
    match err {
        TlsConfigLoadError::InvalidClientCa { path, .. } => assert_eq!(path, "empty-ca.crt"),
        other => panic!("unexpected error: {other:?}"),
    }
}

#[test]
fn mismatched_key_is_an_invalid_config() {
    let first = write_tls_artifacts();
    let second = write_tls_artifacts();
    let files = [
        (SERVER_CERT_PATH, first.server_cert.as_str()),
        (SERVER_KEY_PATH, second.server_key.as_str()),
    ];
    let err = load(&files, server_only_tls()).unwrap_err();
    assert!(matches!(err, TlsConfigLoadError::InvalidConfig { .. }));
    assert_eq!(err.path(), None);
}

#[test]
fn client_ca_without_usable_certificates_is_invalid() {
    let artifacts = write_tls_artifacts();
    let mut files = standard_files(&artifacts);
    let garbage = "-----BEGIN CERTIFICATE-----\nAAECAwQFBgcICQ==\n-----END CERTIFICATE-----\n";
    files.push(("garbage-ca.crt", garbage));
    let err = load(&files, server_only_tls().with_client_ca("garbage-ca.crt")).unwrap_err();
    match &err {
        TlsConfigLoadError::InvalidClientCa { path, .. } => assert_eq!(path, "garbage-ca.crt"),
        other => panic!("unexpected error: {other:?}"),
    }
    assert!(err.tls_source().is_some());
    assert!(err.io_source().is_none());
}

#[test]
fn file_errors_carry_their_io_source() {
    let artifacts = write_tls_artifacts();
    let config = ServerConfig::new().with_tls(mutual_tls()).build().unwrap();
    let tls = config.tls().unwrap();
    let err = tls_server_config(
        tls,
        TlsFiles {
            certificate: FileContents::Read(artifacts.server_cert.as_bytes().to_vec()),
            private_key: FileContents::Read(artifacts.server_key.as_bytes().to_vec()),
            client_ca: Some(FileContents::Unopened(std::io::Error::from(
                std::io::ErrorKind::PermissionDenied,
            ))),
        },
    )
    .map(BuiltTlsConfig::into_rustls)
    .unwrap_err();
    assert!(matches!(err, TlsConfigLoadError::OpenClientCa { .. }));
    assert_eq!(err.io_source().unwrap().kind(), std::io::ErrorKind::PermissionDenied);
    assert!(err.tls_source().is_none());
}

#[test]
fn server_tls_config_without_tls_is_none() {
    let config = ServerConfig::new().build().unwrap();
    assert!(matches!(server_tls_config(&config, None), Ok(None)));
}

#[test]
fn server_tls_config_reports_tls_errors_only() {
    let artifacts = write_tls_artifacts();
    let config = ServerConfig::new().with_tls(server_only_tls()).build().unwrap();
    let tls = config.tls().unwrap();
    let files = standard_files(&artifacts);
    let loaded = server_tls_config(&config, Some(read_tls_files(&files, tls))).unwrap();
    assert!(loaded.is_some());

    let missing = TlsFiles {
        certificate: FileContents::Unopened(std::io::Error::from(std::io::ErrorKind::NotFound)),
        private_key: FileContents::Read(artifacts.server_key.as_bytes().to_vec()),
        client_ca: None,
    };
    match server_tls_config(&config, Some(missing)) {
        Err(ServerError::Tls(TlsConfigLoadError::OpenCertificate { path, .. })) => {
            assert_eq!(path, SERVER_CERT_PATH)
        }
        Err(other) => panic!("unexpected error: {other:?}"),
        Ok(_) => panic!("a missing certificate file was accepted"),
    }
}

fn perform_tls_handshake(
    server_config: rustls::ServerConfig,
    client_config: rustls::ClientConfig,
) -> Result<(), rustls::Error> {
    let server_name = ServerName::try_from("localhost").unwrap();
    let mut client =
        rustls::ClientConnection::new(std::sync::Arc::new(client_config), server_name).unwrap();
    let mut server = rustls::ServerConnection::new(std::sync::Arc::new(server_config)).unwrap();
    let mut client_to_server = Vec::new();
    let mut server_to_client = Vec::new();

    for _ in 0..16 {
        while client.wants_write() {
            client.write_tls(&mut client_to_server).unwrap();
        }
        while server.wants_write() {
            server.write_tls(&mut server_to_client).unwrap();
        }

        if !client_to_server.is_empty() {
            let mut rd = std::io::Cursor::new(std::mem::take(&mut client_to_server));
            server.read_tls(&mut rd).unwrap();
            if let Err(err) = server.process_new_packets() {
                return Err(err);
            }
        }

        if !server_to_client.is_empty() {
            let mut rd = std::io::Cursor::new(std::mem::take(&mut server_to_client));
            client.read_tls(&mut rd).unwrap();
            if let Err(err) = client.process_new_packets() {
                return Err(err);
            }
        }

        if !client.is_handshaking() && !server.is_handshaking() {
            return Ok(());
        }
    }

    Err(rustls::Error::General("TLS handshake did not complete".to_string()))
}
