//! Turning the PEM files of a validated TLS setup into a rustls server
//! configuration, with or without client-certificate verification.
use vstd::prelude::*;

use crate::config::{ValidatedServerConfig, ValidatedTlsConfig};
use crate::error::{ServerError, TlsConfigLoadError, TlsFault};
use crate::tls_build::{
    client_root_store, general_tls_error, install_crypto_provider, pem_certificate_count,
    pem_private_key_found, pem_trust_anchor_count, read_certificates, read_private_key,
    server_config_with_client_auth, server_config_without_client_auth, BuiltTlsConfig,
    ClientAuthFailure, TlsBuild,
};

verus! {

/// What opening and reading one file gave.
#[derive(Debug)]
pub enum FileContents {
    /// The file could not be opened.
    Unopened(std::io::Error),
    /// The file was opened, but reading it failed.
    Unread(std::io::Error),
    /// The whole content of the file.
    Read(Vec<u8>),
}

/// The abstract content of a `FileContents`.
pub enum FileState {
    Unopened,
    Unread,
    Read(Seq<u8>),
}

impl View for FileContents {
    type V = FileState;

    open spec fn view(&self) -> FileState {
        match self {
            FileContents::Unopened(_) => FileState::Unopened,
            FileContents::Unread(_) => FileState::Unread,
            FileContents::Read(bytes) => FileState::Read(bytes@),
        }
    }
}

/// The files that a TLS setup names, as they were read: the certificate
/// chain, the private key, and the client CA bundle when one is configured.
#[derive(Debug)]
pub struct TlsFiles {
    pub certificate: FileContents,
    pub private_key: FileContents,
    pub client_ca: Option<FileContents>,
}

/// The view of the files of a TLS setup.
pub struct TlsFilesView {
    pub certificate: FileState,
    pub private_key: FileState,
    pub client_ca: Option<FileState>,
}

impl View for TlsFiles {
    type V = TlsFilesView;

    open spec fn view(&self) -> TlsFilesView {
        TlsFilesView {
            certificate: self.certificate@,
            private_key: self.private_key@,
            client_ca: match self.client_ca {
                Some(f) => Some(f@),
                None => None,
            },
        }
    }
}

/// Whether the files fit the TLS setup: a client CA file is given exactly
/// when a client CA is configured.
pub open spec fn files_match(tls: crate::config::ValidatedTlsView, files: TlsFilesView) -> bool {
    files.client_ca is Some <==> tls.client_ca is Some
}

/// The failure that the files decide before rustls builds anything, in the
/// order the steps are taken: opening the certificate chain, opening the
/// key, reading the chain, reading the key, then opening and reading the
/// client CA bundle, whose certificates must give rustls at least one trust
/// anchor.
pub open spec fn tls_file_fault(
    tls: crate::config::ValidatedTlsView,
    files: TlsFilesView,
) -> Option<TlsFault> {
    if files.certificate is Unopened {
        Some(TlsFault::OpenCertificate(tls.cert_path))
    } else if files.private_key is Unopened {
        Some(TlsFault::OpenPrivateKey(tls.cert_key_path))
    } else if files.certificate is Unread || (files.certificate matches FileState::Read(b)
        && pem_certificate_count(b) is None) {
        Some(TlsFault::ReadCertificates(tls.cert_path))
    } else if files.private_key is Unread || (files.private_key matches FileState::Read(b)
        && pem_private_key_found(b) is None) {
        Some(TlsFault::ReadPrivateKey(tls.cert_key_path))
    } else if files.private_key matches FileState::Read(b) && pem_private_key_found(b) == Some(
        false,
    ) {
        Some(TlsFault::MissingPrivateKey(tls.cert_key_path))
    } else if let Some(ca_path) = tls.client_ca {
        if files.client_ca matches Some(FileState::Unopened) {
            Some(TlsFault::OpenClientCa(ca_path))
        } else if files.client_ca matches Some(FileState::Unread) || (files.client_ca matches Some(
            FileState::Read(b),
        ) && pem_certificate_count(b) is None) {
            Some(TlsFault::ReadClientCa(ca_path))
        } else if files.client_ca matches Some(FileState::Read(b)) && pem_trust_anchor_count(b)
            == 0 {
            Some(TlsFault::InvalidClientCa(ca_path))
        } else {
            None
        }
    } else {
        None
    }
}

/// The bytes of a file that was read; nothing for one that was not.
pub open spec fn read_bytes(file: FileState) -> Seq<u8> {
    match file {
        FileState::Read(bytes) => bytes,
        _ => Seq::empty(),
    }
}

/// How the server configuration of a TLS setup is built from its files:
/// with the certificate chain and key, and, when a client CA is configured,
/// a verifier that requires client certificates issued under that bundle.
pub open spec fn tls_build(tls: crate::config::ValidatedTlsView, files: TlsFilesView) -> TlsBuild {
    let chain = read_bytes(files.certificate);
    let key = read_bytes(files.private_key);
    match (tls.client_ca, files.client_ca) {
        (Some(_), Some(ca)) => TlsBuild::ClientCertRequired { chain, key, client_ca: read_bytes(ca) },
        _ => TlsBuild::ServerOnly { chain, key },
    }
}

/// Whether a load error carries the I/O error of the file it is about, where
/// opening or reading that file is what failed.
pub open spec fn carries_file_error(e: TlsConfigLoadError, files: TlsFiles) -> bool {
    match e {
        TlsConfigLoadError::OpenCertificate { source, .. } => files.certificate == FileContents::Unopened(source),
        TlsConfigLoadError::OpenPrivateKey { source, .. } => files.private_key == FileContents::Unopened(source),
        TlsConfigLoadError::ReadCertificates { source, .. } => files.certificate is Unread
            ==> files.certificate == FileContents::Unread(source),
        TlsConfigLoadError::ReadPrivateKey { source, .. } => files.private_key is Unread
            ==> files.private_key == FileContents::Unread(source),
        TlsConfigLoadError::OpenClientCa { source, .. } => files.client_ca == Some(
            FileContents::Unopened(source),
        ),
        TlsConfigLoadError::ReadClientCa { source, .. } => files.client_ca matches Some(
            FileContents::Unread(_),
        ) ==> files.client_ca == Some(FileContents::Unread(source)),
        _ => true,
    }
}

/// Builds the rustls server configuration for a TLS setup from its files.
/// A failure that the files decide is reported exactly, with the I/O error
/// of the file where there is one. Past those, the configuration is built
/// as `tls_build` says: server-only TLS without a client CA, and with one a
/// server that requires and verifies client certificates against that
/// bundle. Only rustls's acceptance of the chain and key can still fail,
/// with `InvalidConfig`.
pub fn tls_server_config(tls: &ValidatedTlsConfig, files: TlsFiles) -> (config: Result<
    BuiltTlsConfig,
    TlsConfigLoadError,
>)
    requires
        files_match(tls@, files@),
    ensures
        match tls_file_fault(tls@, files@) {
            Some(fault) => config matches Err(e) && e@ == fault,
            None => match config {
                Ok(built) => built.applied() == tls_build(tls@, files@),
                Err(e) => e@ == TlsFault::InvalidConfig,
            },
        },
        config matches Ok(built) ==> (built.applied() is ClientCertRequired <==> tls@.client_ca is Some),
        config matches Err(e) ==> carries_file_error(e, files),
{
    install_crypto_provider();
    let TlsFiles { certificate, private_key, client_ca } = files;
    let cert_bytes = match certificate {
        FileContents::Unopened(source) => {
            return Err(
                TlsConfigLoadError::OpenCertificate {
                    path: String::from_str(tls.cert_path()),
                    source,
                },
            );
        },
        FileContents::Unread(source) => Err(source),
        FileContents::Read(bytes) => Ok(bytes),
    };
    let key_bytes = match private_key {
        FileContents::Unopened(source) => {
            return Err(
                TlsConfigLoadError::OpenPrivateKey {
                    path: String::from_str(tls.cert_key_path()),
                    source,
                },
            );
        },
        FileContents::Unread(source) => Err(source),
        FileContents::Read(bytes) => Ok(bytes),
    };
    let certs = match cert_bytes {
        Err(source) => {
            return Err(
                TlsConfigLoadError::ReadCertificates {
                    path: String::from_str(tls.cert_path()),
                    source,
                },
            );
        },
        Ok(bytes) => match read_certificates(bytes.as_slice()) {
            Ok(certs) => certs,
            Err(source) => {
                return Err(
                    TlsConfigLoadError::ReadCertificates {
                        path: String::from_str(tls.cert_path()),
                        source,
                    },
                );
            },
        },
    };
    let key = match key_bytes {
        Err(source) => {
            return Err(
                TlsConfigLoadError::ReadPrivateKey {
                    path: String::from_str(tls.cert_key_path()),
                    source,
                },
            );
        },
        Ok(bytes) => match read_private_key(bytes.as_slice()) {
            Ok(Some(key)) => key,
            Ok(None) => {
                return Err(
                    TlsConfigLoadError::MissingPrivateKey {
                        path: String::from_str(tls.cert_key_path()),
                    },
                );
            },
            Err(source) => {
                return Err(
                    TlsConfigLoadError::ReadPrivateKey {
                        path: String::from_str(tls.cert_key_path()),
                        source,
                    },
                );
            },
        },
    };
    match tls.client_ca() {
        None => match server_config_without_client_auth(certs, key) {
            Ok(config) => Ok(config),
            Err(source) => Err(TlsConfigLoadError::InvalidConfig { source }),
        },
        Some(ca_path) => {
            let ca_file = client_ca.unwrap();
            let ca_certs = match ca_file {
                FileContents::Unopened(source) => {
                    return Err(
                        TlsConfigLoadError::OpenClientCa { path: String::from_str(ca_path), source },
                    );
                },
                FileContents::Unread(source) => {
                    return Err(
                        TlsConfigLoadError::ReadClientCa { path: String::from_str(ca_path), source },
                    );
                },
                FileContents::Read(bytes) => match read_certificates(bytes.as_slice()) {
                    Ok(certs) => certs,
                    Err(source) => {
                        return Err(
                            TlsConfigLoadError::ReadClientCa {
                                path: String::from_str(ca_path),
                                source,
                            },
                        );
                    },
                },
            };
            let (roots, added) = client_root_store(ca_certs);
            if added == 0 {
                return Err(
                    TlsConfigLoadError::InvalidClientCa {
                        path: String::from_str(ca_path),
                        source: general_tls_error("no valid client CA certificates found"),
                    },
                );
            }
            match server_config_with_client_auth(roots, certs, key) {
                Ok(config) => Ok(config),
                Err(ClientAuthFailure::Verifier(source)) => Err(
                    TlsConfigLoadError::InvalidClientCa { path: String::from_str(ca_path), source },
                ),
                Err(ClientAuthFailure::Certificate(source)) => Err(
                    TlsConfigLoadError::InvalidConfig { source },
                ),
            }
        },
    }
}

/// The TLS server configuration of a validated server configuration, built
/// from the files that its TLS setup names: none when TLS is not configured,
/// and otherwise what `tls_server_config` gives, its error carried as
/// `ServerError::Tls`. It never fails with a configuration or I/O error.
pub fn server_tls_config<U>(config: &ValidatedServerConfig<U>, files: Option<TlsFiles>) -> (loaded:
    Result<Option<BuiltTlsConfig>, ServerError>)
    requires
        config@.tls matches Some(tls) ==> files matches Some(f) && files_match(tls, f@),
    ensures
        loaded matches Ok(None) <==> config@.tls is None,
        loaded matches Err(e) ==> e is Tls,
        config@.tls matches Some(tls) ==> files matches Some(f) && match tls_file_fault(tls, f@) {
            Some(fault) => loaded matches Err(ServerError::Tls(e)) && e@ == fault,
            None => match loaded {
                Ok(Some(built)) => built.applied() == tls_build(tls, f@),
                Ok(None) => false,
                Err(e) => e@ == crate::error::ServerFault::Tls(TlsFault::InvalidConfig),
            },
        },
{
    match (config.tls(), files) {
        (Some(tls), Some(files)) => match tls_server_config(tls, files) {
            Ok(built) => Ok(Some(built)),
            Err(e) => Err(ServerError::Tls(e)),
        },
        _ => Ok(None),
    }
}

} // verus!
