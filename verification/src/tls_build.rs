//! The PEM readers and rustls builders that a TLS setup goes through. Each
//! value they hand back carries, as a ghost, the PEM bytes it was made from,
//! and only the calls in this module make such values.
use std::sync::Arc;

use rustls::ServerConfig as RustlsServerConfig;

use vstd::prelude::*;

verus! {

#[verifier::external_type_specification]
#[verifier::external_body]
pub struct ExRustlsServerConfig(RustlsServerConfig);

#[verifier::external_type_specification]
#[verifier::external_body]
pub struct ExCertificateDer<'a>(rustls::pki_types::CertificateDer<'a>);

#[verifier::external_type_specification]
#[verifier::external_body]
pub struct ExPrivateKeyDer<'a>(rustls::pki_types::PrivateKeyDer<'a>);

#[verifier::external_type_specification]
#[verifier::external_body]
pub struct ExRootCertStore(rustls::RootCertStore);

/// The number of certificates that `rustls_pemfile::certs` reads from the
/// PEM bytes, or `None` when it reports an error for them.
pub uninterp spec fn pem_certificate_count(pem: Seq<u8>) -> Option<nat>;

/// Whether `rustls_pemfile::private_key` finds a private key in the PEM
/// bytes, or `None` when it reports an error for them.
pub uninterp spec fn pem_private_key_found(pem: Seq<u8>) -> Option<bool>;

/// How many of the certificates read from the PEM bytes
/// `rustls::RootCertStore::add_parsable_certificates` accepts as trust
/// anchors.
pub uninterp spec fn pem_trust_anchor_count(pem: Seq<u8>) -> nat;

/// The certificates read from PEM bytes.
pub struct PemCertificates {
    certs: Vec<rustls::pki_types::CertificateDer<'static>>,
    pem: Ghost<Seq<u8>>,
}

impl View for PemCertificates {
    type V = Seq<u8>;

    /// The PEM bytes the certificates were read from.
    closed spec fn view(&self) -> Seq<u8> {
        self.pem@
    }
}

/// The private key read from PEM bytes.
pub struct PemPrivateKey {
    key: rustls::pki_types::PrivateKeyDer<'static>,
    pem: Ghost<Seq<u8>>,
}

impl View for PemPrivateKey {
    type V = Seq<u8>;

    /// The PEM bytes the key was read from.
    closed spec fn view(&self) -> Seq<u8> {
        self.pem@
    }
}

/// A store of client CA trust anchors.
pub struct ClientRoots {
    store: rustls::RootCertStore,
    pem: Ghost<Seq<u8>>,
}

impl View for ClientRoots {
    type V = Seq<u8>;

    /// The PEM bytes whose certificates the anchors were parsed from.
    closed spec fn view(&self) -> Seq<u8> {
        self.pem@
    }
}

/// How a rustls server configuration was built, by the PEM bytes of its
/// parts.
pub enum TlsBuild {
    /// `ServerConfig::builder().with_no_client_auth()`, then
    /// `with_single_cert` with the chain and key: the server asks no client
    /// for a certificate.
    ServerOnly { chain: Seq<u8>, key: Seq<u8> },
    /// `WebPkiClientVerifier::builder(roots).build()` over the trust anchors
    /// of the client CA bundle, `with_client_cert_verifier` with it, then
    /// `with_single_cert` with the chain and key. The builder's default
    /// policy denies anonymous clients, so every client must present a
    /// certificate that verifies against those anchors.
    ClientCertRequired { chain: Seq<u8>, key: Seq<u8>, client_ca: Seq<u8> },
}

/// A rustls server configuration, with how it was built.
pub struct BuiltTlsConfig {
    config: RustlsServerConfig,
    built: Ghost<TlsBuild>,
}

impl BuiltTlsConfig {
    /// The calls that built this configuration and the PEM bytes they were
    /// given.
    pub closed spec fn applied(self) -> TlsBuild {
        self.built@
    }

    /// The configuration itself, to serve TLS with.
    pub fn into_rustls(self) -> (config: RustlsServerConfig) {
        self.config
    }
}

/// Calls `rustls_pemfile::certs` on the bytes and collects the certificates,
/// stopping at the first error. The function reads nothing but the bytes
/// it is given, so its outcome is named by `pem_certificate_count`.
#[verifier::external_body]
pub(crate) fn read_certificates(pem: &[u8]) -> (certs: Result<PemCertificates, std::io::Error>)
    ensures
        match certs {
            Ok(read) => read@ == pem@ && pem_certificate_count(pem@) is Some,
            Err(_) => pem_certificate_count(pem@) is None,
        },
{
    let mut reader: &[u8] = pem;
    match rustls_pemfile::certs(&mut reader).collect::<Result<Vec<_>, _>>() {
        Ok(certs) => Ok(PemCertificates { certs, pem: Ghost(pem@) }),
        Err(e) => Err(e),
    }
}

/// Calls `rustls_pemfile::private_key` on the bytes: the first private key
/// of any kind, none when there is none, or an error. Its outcome depends
/// on the bytes alone and is named by `pem_private_key_found`.
#[verifier::external_body]
pub(crate) fn read_private_key(pem: &[u8]) -> (key: Result<Option<PemPrivateKey>, std::io::Error>)
    ensures
        match key {
            Ok(found) => pem_private_key_found(pem@) == Some(found is Some) && (found matches Some(
                k,
            ) ==> k@ == pem@),
            Err(_) => pem_private_key_found(pem@) is None,
        },
{
    let mut reader: &[u8] = pem;
    match rustls_pemfile::private_key(&mut reader) {
        Ok(found) => Ok(found.map(|key| PemPrivateKey { key, pem: Ghost(pem@) })),
        Err(e) => Err(e),
    }
}

/// Calls `rustls::crypto::aws_lc_rs::default_provider().install_default()`,
/// which makes aws-lc-rs the process-wide crypto provider unless one is
/// installed already. Nothing is claimed of it; it is why the rustls
/// builders below find a provider.
#[verifier::external_body]
pub(crate) fn install_crypto_provider() {
    let _ = rustls::crypto::aws_lc_rs::default_provider().install_default();
}

/// Calls `rustls::RootCertStore::empty` and then `add_parsable_certificates`
/// with the certificates, returning the store and the number of anchors
/// added, which `pem_trust_anchor_count` names.
#[verifier::external_body]
pub(crate) fn client_root_store(ca: PemCertificates) -> (store: (ClientRoots, usize))
    ensures
        store.0@ == ca@,
        store.1 == pem_trust_anchor_count(ca@),
{
    let mut roots = rustls::RootCertStore::empty();
    let (added, _ignored) = roots.add_parsable_certificates(ca.certs);
    (ClientRoots { store: roots, pem: ca.pem }, added)
}

/// Calls `rustls::Error::General` with the message.
#[verifier::external_body]
pub(crate) fn general_tls_error(message: &str) -> (error: rustls::Error) {
    rustls::Error::General(message.to_string())
}

/// Why building a server configuration with client authentication failed.
pub(crate) enum ClientAuthFailure {
    /// `WebPkiClientVerifier` could not be built from the client CA store.
    Verifier(rustls::Error),
    /// The server certificate chain and key were refused.
    Certificate(rustls::Error),
}

/// Calls `rustls::ServerConfig::builder().with_no_client_auth()
/// .with_single_cert(..)` with the chain and key. Whether they are accepted
/// is decided by rustls and the process-wide crypto provider, so that is
/// left unsaid; what a success was built from is stated.
#[verifier::external_body]
pub(crate) fn server_config_without_client_auth(chain: PemCertificates, key: PemPrivateKey) -> (config:
    Result<BuiltTlsConfig, rustls::Error>)
    ensures
        config matches Ok(c) ==> c.applied() == (TlsBuild::ServerOnly { chain: chain@, key: key@ }),
{
    match RustlsServerConfig::builder().with_no_client_auth().with_single_cert(chain.certs, key.key) {
        Ok(config) => Ok(BuiltTlsConfig {
            config,
            built: Ghost(TlsBuild::ServerOnly { chain: chain.pem@, key: key.pem@ }),
        }),
        Err(e) => Err(e),
    }
}

/// Calls `rustls::server::WebPkiClientVerifier::builder(roots).build()`, and
/// on success `rustls::ServerConfig::builder().with_client_cert_verifier(..)
/// .with_single_cert(..)` with the chain and key. The source of `build` fails
/// only for a store without anchors or for revocation lists that do not
/// parse, and none are given, so with at least one anchor the verifier is
/// built. Whether the chain and key are accepted is left unsaid, as above.
#[verifier::external_body]
pub(crate) fn server_config_with_client_auth(
    roots: ClientRoots,
    chain: PemCertificates,
    key: PemPrivateKey,
) -> (config: Result<BuiltTlsConfig, ClientAuthFailure>)
    requires
        pem_trust_anchor_count(roots@) > 0,
    ensures
        !(config matches Err(ClientAuthFailure::Verifier(_))),
        config matches Ok(c) ==> c.applied() == (TlsBuild::ClientCertRequired {
            chain: chain@,
            key: key@,
            client_ca: roots@,
        }),
{
    let verifier = match rustls::server::WebPkiClientVerifier::builder(Arc::new(roots.store)).build() {
        Ok(verifier) => verifier,
        Err(e) => return Err(ClientAuthFailure::Verifier(rustls::Error::General(e.to_string()))),
    };
    let built = Ghost(TlsBuild::ClientCertRequired { chain: chain.pem@, key: key.pem@, client_ca: roots.pem@ });
    match RustlsServerConfig::builder().with_client_cert_verifier(verifier).with_single_cert(chain.certs, key.key) {
        Ok(config) => Ok(BuiltTlsConfig { config, built }),
        Err(e) => Err(ClientAuthFailure::Certificate(e)),
    }
}

} // verus!
