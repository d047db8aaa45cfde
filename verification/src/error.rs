//! The errors of configuration checking, TLS loading and server start-up.
use vstd::prelude::*;
use vstd::std_specs::convert::FromSpecImpl;
use vstd::string::*;

verus! {

#[verifier::external_type_specification]
#[verifier::external_body]
pub struct ExIoError(std::io::Error);

#[verifier::external_type_specification]
#[verifier::external_body]
pub struct ExTlsError(rustls::Error);

/// The abstract content of a `ServerConfigError`.
pub enum ConfigFault {
    MissingListenAddr,
    MissingCorsOrigins,
    MissingCorsMethods,
    InvalidCorsOrigin(Seq<char>),
    InvalidCorsMethod(Seq<char>),
    MissingTlsCertPath,
    MissingTlsKeyPath,
}

/// Why a server configuration was refused by `build`.
#[derive(Clone, Debug, PartialEq, Eq)]
pub enum ServerConfigError {
    MissingListenAddr,
    MissingCorsOrigins,
    MissingCorsMethods,
    InvalidCorsOrigin(String),
    InvalidCorsMethod(String),
    MissingTlsCertPath,
    MissingTlsKeyPath,
}

impl View for ServerConfigError {
    type V = ConfigFault;

    open spec fn view(&self) -> ConfigFault {
        match self {
            ServerConfigError::MissingListenAddr => ConfigFault::MissingListenAddr,
            ServerConfigError::MissingCorsOrigins => ConfigFault::MissingCorsOrigins,
            ServerConfigError::MissingCorsMethods => ConfigFault::MissingCorsMethods,
            ServerConfigError::InvalidCorsOrigin(origin) => ConfigFault::InvalidCorsOrigin(origin@),
            ServerConfigError::InvalidCorsMethod(method) => ConfigFault::InvalidCorsMethod(method@),
            ServerConfigError::MissingTlsCertPath => ConfigFault::MissingTlsCertPath,
            ServerConfigError::MissingTlsKeyPath => ConfigFault::MissingTlsKeyPath,
        }
    }
}

/// The text that describes a configuration fault.
pub open spec fn config_fault_message(fault: ConfigFault) -> Seq<char> {
    match fault {
        ConfigFault::MissingListenAddr => "listen_addr must not be empty"@,
        ConfigFault::MissingCorsOrigins =>
            "restricted CORS configuration requires at least one origin"@,
        ConfigFault::MissingCorsMethods =>
            "restricted CORS configuration requires at least one method"@,
        ConfigFault::InvalidCorsOrigin(origin) => "restricted CORS origin is invalid: "@ + origin,
        ConfigFault::InvalidCorsMethod(method) => "restricted CORS method is invalid: "@ + method,
        ConfigFault::MissingTlsCertPath => "TLS configuration requires cert_path"@,
        ConfigFault::MissingTlsKeyPath => "TLS configuration requires cert_key_path"@,
    }
}

impl ServerConfigError {
    /// The human-readable description of this error.
    pub fn message(&self) -> (text: String)
        ensures
            text@ == config_fault_message(self@),
    {
        match self {
            ServerConfigError::MissingListenAddr => String::from_str(
                "listen_addr must not be empty",
            ),
            ServerConfigError::MissingCorsOrigins => String::from_str(
                "restricted CORS configuration requires at least one origin",
            ),
            ServerConfigError::MissingCorsMethods => String::from_str(
                "restricted CORS configuration requires at least one method",
            ),
            ServerConfigError::InvalidCorsOrigin(origin) => String::from_str(
                "restricted CORS origin is invalid: ",
            ).concat(origin.as_str()),
            ServerConfigError::InvalidCorsMethod(method) => String::from_str(
                "restricted CORS method is invalid: ",
            ).concat(method.as_str()),
            ServerConfigError::MissingTlsCertPath => String::from_str(
                "TLS configuration requires cert_path",
            ),
            ServerConfigError::MissingTlsKeyPath => String::from_str(
                "TLS configuration requires cert_key_path",
            ),
        }
    }
}

/// The abstract content of a `TlsConfigLoadError`: which step failed, and
/// for which file.
pub enum TlsFault {
    OpenCertificate(Seq<char>),
    ReadCertificates(Seq<char>),
    OpenPrivateKey(Seq<char>),
    ReadPrivateKey(Seq<char>),
    MissingPrivateKey(Seq<char>),
    OpenClientCa(Seq<char>),
    ReadClientCa(Seq<char>),
    InvalidClientCa(Seq<char>),
    InvalidConfig,
}

/// Why the TLS material of a validated configuration could not be turned
/// into a rustls server configuration.
#[derive(Debug)]
pub enum TlsConfigLoadError {
    OpenCertificate { path: String, source: std::io::Error },
    ReadCertificates { path: String, source: std::io::Error },
    OpenPrivateKey { path: String, source: std::io::Error },
    ReadPrivateKey { path: String, source: std::io::Error },
    MissingPrivateKey { path: String },
    OpenClientCa { path: String, source: std::io::Error },
    ReadClientCa { path: String, source: std::io::Error },
    InvalidClientCa { path: String, source: rustls::Error },
    InvalidConfig { source: rustls::Error },
}

impl View for TlsConfigLoadError {
    type V = TlsFault;

    open spec fn view(&self) -> TlsFault {
        match self {
            TlsConfigLoadError::OpenCertificate { path, .. } => TlsFault::OpenCertificate(path@),
            TlsConfigLoadError::ReadCertificates { path, .. } => TlsFault::ReadCertificates(path@),
            TlsConfigLoadError::OpenPrivateKey { path, .. } => TlsFault::OpenPrivateKey(path@),
            TlsConfigLoadError::ReadPrivateKey { path, .. } => TlsFault::ReadPrivateKey(path@),
            TlsConfigLoadError::MissingPrivateKey { path } => TlsFault::MissingPrivateKey(path@),
            TlsConfigLoadError::OpenClientCa { path, .. } => TlsFault::OpenClientCa(path@),
            TlsConfigLoadError::ReadClientCa { path, .. } => TlsFault::ReadClientCa(path@),
            TlsConfigLoadError::InvalidClientCa { path, .. } => TlsFault::InvalidClientCa(path@),
            TlsConfigLoadError::InvalidConfig { .. } => TlsFault::InvalidConfig,
        }
    }
}

impl TlsConfigLoadError {
    /// The file that the failed step was about, where there is one.
    pub fn path(&self) -> (path: Option<&str>)
        ensures
            match self@ {
                TlsFault::InvalidConfig => path is None,
                TlsFault::OpenCertificate(p) | TlsFault::ReadCertificates(p)
                | TlsFault::OpenPrivateKey(p) | TlsFault::ReadPrivateKey(p)
                | TlsFault::MissingPrivateKey(p) | TlsFault::OpenClientCa(p)
                | TlsFault::ReadClientCa(p) | TlsFault::InvalidClientCa(p) => path matches Some(
                    q,
                ) && q@ == p,
            },
    {
        match self {
            TlsConfigLoadError::OpenCertificate { path, .. } => Some(path.as_str()),
            TlsConfigLoadError::ReadCertificates { path, .. } => Some(path.as_str()),
            TlsConfigLoadError::OpenPrivateKey { path, .. } => Some(path.as_str()),
            TlsConfigLoadError::ReadPrivateKey { path, .. } => Some(path.as_str()),
            TlsConfigLoadError::MissingPrivateKey { path } => Some(path.as_str()),
            TlsConfigLoadError::OpenClientCa { path, .. } => Some(path.as_str()),
            TlsConfigLoadError::ReadClientCa { path, .. } => Some(path.as_str()),
            TlsConfigLoadError::InvalidClientCa { path, .. } => Some(path.as_str()),
            TlsConfigLoadError::InvalidConfig { .. } => None,
        }
    }
}

/// The I/O error that a load error carries, where it carries one.
pub open spec fn io_source_of(e: TlsConfigLoadError) -> Option<std::io::Error> {
    match e {
        TlsConfigLoadError::OpenCertificate { source, .. } => Some(source),
        TlsConfigLoadError::ReadCertificates { source, .. } => Some(source),
        TlsConfigLoadError::OpenPrivateKey { source, .. } => Some(source),
        TlsConfigLoadError::ReadPrivateKey { source, .. } => Some(source),
        TlsConfigLoadError::OpenClientCa { source, .. } => Some(source),
        TlsConfigLoadError::ReadClientCa { source, .. } => Some(source),
        _ => None,
    }
}

/// The rustls error that a load error carries, where it carries one.
pub open spec fn tls_source_of(e: TlsConfigLoadError) -> Option<rustls::Error> {
    match e {
        TlsConfigLoadError::InvalidClientCa { source, .. } => Some(source),
        TlsConfigLoadError::InvalidConfig { source } => Some(source),
        _ => None,
    }
}

impl TlsConfigLoadError {
    /// The I/O error underneath, for the steps that open or read a file.
    pub fn io_source(&self) -> (source: Option<&std::io::Error>)
        ensures
            match source {
                Some(s) => io_source_of(*self) == Some(*s),
                None => io_source_of(*self) is None,
            },
    {
        match self {
            TlsConfigLoadError::OpenCertificate { source, .. } => Some(source),
            TlsConfigLoadError::ReadCertificates { source, .. } => Some(source),
            TlsConfigLoadError::OpenPrivateKey { source, .. } => Some(source),
            TlsConfigLoadError::ReadPrivateKey { source, .. } => Some(source),
            TlsConfigLoadError::OpenClientCa { source, .. } => Some(source),
            TlsConfigLoadError::ReadClientCa { source, .. } => Some(source),
            _ => None,
        }
    }

    /// The rustls error underneath, for the steps that rustls refused.
    pub fn tls_source(&self) -> (source: Option<&rustls::Error>)
        ensures
            match source {
                Some(s) => tls_source_of(*self) == Some(*s),
                None => tls_source_of(*self) is None,
            },
    {
        match self {
            TlsConfigLoadError::InvalidClientCa { source, .. } => Some(source),
            TlsConfigLoadError::InvalidConfig { source } => Some(source),
            _ => None,
        }
    }
}

/// Calls `to_string` on a `std::io::Error`. The text is the operating
/// system's description of the error; nothing is claimed of it.
#[verifier::external_body]
pub(crate) fn io_error_text(error: &std::io::Error) -> (text: String) {
    error.to_string()
}

/// Calls `to_string` on a `rustls::Error`. Nothing is claimed of the text.
#[verifier::external_body]
pub(crate) fn tls_error_text(error: &rustls::Error) -> (text: String) {
    error.to_string()
}

/// The text that describes a TLS loading fault, where `detail` is the text
/// of the underlying error.
pub open spec fn tls_fault_message(fault: TlsFault, detail: Seq<char>) -> Seq<char> {
    match fault {
        TlsFault::OpenCertificate(p) => "failed to open TLS certificate at "@ + p + ": "@ + detail,
        TlsFault::ReadCertificates(p) => "failed to read TLS certificates from "@ + p + ": "@
            + detail,
        TlsFault::OpenPrivateKey(p) => "failed to open TLS private key at "@ + p + ": "@ + detail,
        TlsFault::ReadPrivateKey(p) => "failed to read TLS private key from "@ + p + ": "@
            + detail,
        TlsFault::MissingPrivateKey(p) => "no TLS private key found in "@ + p,
        TlsFault::OpenClientCa(p) => "failed to open TLS client CA bundle at "@ + p + ": "@
            + detail,
        TlsFault::ReadClientCa(p) => "failed to read TLS client CA certificates from "@ + p
            + ": "@ + detail,
        TlsFault::InvalidClientCa(p) => "TLS client CA bundle at "@ + p + " is unusable: "@
            + detail,
        TlsFault::InvalidConfig => "failed to build TLS server configuration: "@ + detail,
    }
}

/// `prefix`, `path`, `": "` and `detail`, joined.
fn join_message(prefix: &str, path: &str, detail: String) -> (text: String)
    ensures
        text@ == prefix@ + path@ + ": "@ + detail@,
{
    String::from_str(prefix).concat(path).concat(": ").concat(detail.as_str())
}

impl TlsConfigLoadError {
    /// The human-readable description of this error, ending with the text
    /// of the underlying error where there is one.
    pub fn message(&self) -> (text: String)
        ensures
            exists|detail: Seq<char>| text@ == tls_fault_message(self@, detail),
    {
        match self {
            TlsConfigLoadError::OpenCertificate { path, source } => {
                let d = io_error_text(source);
                let ghost dv = d@;
                let t = join_message("failed to open TLS certificate at ", path.as_str(), d);
                assert(t@ == tls_fault_message(self@, dv));
                t
            },
            TlsConfigLoadError::ReadCertificates { path, source } => {
                let d = io_error_text(source);
                let ghost dv = d@;
                let t = join_message("failed to read TLS certificates from ", path.as_str(), d);
                assert(t@ == tls_fault_message(self@, dv));
                t
            },
            TlsConfigLoadError::OpenPrivateKey { path, source } => {
                let d = io_error_text(source);
                let ghost dv = d@;
                let t = join_message("failed to open TLS private key at ", path.as_str(), d);
                assert(t@ == tls_fault_message(self@, dv));
                t
            },
            TlsConfigLoadError::ReadPrivateKey { path, source } => {
                let d = io_error_text(source);
                let ghost dv = d@;
                let t = join_message("failed to read TLS private key from ", path.as_str(), d);
                assert(t@ == tls_fault_message(self@, dv));
                t
            },
            TlsConfigLoadError::MissingPrivateKey { path } => {
                let t = String::from_str("no TLS private key found in ").concat(path.as_str());
                assert(t@ == tls_fault_message(self@, Seq::empty()));
                t
            },
            TlsConfigLoadError::OpenClientCa { path, source } => {
                let d = io_error_text(source);
                let ghost dv = d@;
                let t = join_message("failed to open TLS client CA bundle at ", path.as_str(), d);
                assert(t@ == tls_fault_message(self@, dv));
                t
            },
            TlsConfigLoadError::ReadClientCa { path, source } => {
                let d = io_error_text(source);
                let ghost dv = d@;
                let t = join_message(
                    "failed to read TLS client CA certificates from ",
                    path.as_str(),
                    d,
                );
                assert(t@ == tls_fault_message(self@, dv));
                t
            },
            TlsConfigLoadError::InvalidClientCa { path, source } => {
                let d = tls_error_text(source);
                let ghost dv = d@;
                let t = String::from_str("TLS client CA bundle at ").concat(path.as_str()).concat(
                    " is unusable: ",
                ).concat(d.as_str());
                assert(t@ == tls_fault_message(self@, dv));
                t
            },
            TlsConfigLoadError::InvalidConfig { source } => {
                let d = tls_error_text(source);
                let ghost dv = d@;
                let t = String::from_str("failed to build TLS server configuration: ").concat(
                    d.as_str(),
                );
                assert(t@ == tls_fault_message(self@, dv));
                t
            },
        }
    }
}

/// The abstract content of a `ServerError`.
pub enum ServerFault {
    Config(ConfigFault),
    Io,
    Tls(TlsFault),
}

/// Why a server could not be configured, bound or run.
#[derive(Debug)]
pub enum ServerError {
    Config(ServerConfigError),
    Io(std::io::Error),
    Tls(TlsConfigLoadError),
}

impl View for ServerError {
    type V = ServerFault;

    open spec fn view(&self) -> ServerFault {
        match self {
            ServerError::Config(e) => ServerFault::Config(e@),
            ServerError::Io(_) => ServerFault::Io,
            ServerError::Tls(e) => ServerFault::Tls(e@),
        }
    }
}

impl ServerError {
    /// The configuration error underneath, for `Config`.
    pub fn config_error(&self) -> (source: Option<&ServerConfigError>)
        ensures
            match self {
                ServerError::Config(e) => source == Some(e),
                _ => source is None,
            },
    {
        match self {
            ServerError::Config(e) => Some(e),
            _ => None,
        }
    }

    /// The I/O error underneath, for `Io`.
    pub fn io_error(&self) -> (source: Option<&std::io::Error>)
        ensures
            match self {
                ServerError::Io(e) => source == Some(e),
                _ => source is None,
            },
    {
        match self {
            ServerError::Io(e) => Some(e),
            _ => None,
        }
    }

    /// The TLS loading error underneath, for `Tls`.
    pub fn tls_error(&self) -> (source: Option<&TlsConfigLoadError>)
        ensures
            match self {
                ServerError::Tls(e) => source == Some(e),
                _ => source is None,
            },
    {
        match self {
            ServerError::Tls(e) => Some(e),
            _ => None,
        }
    }
}

impl ServerError {
    /// The human-readable description of this error: that of the
    /// configuration or TLS error it carries, or the text of the I/O error.
    pub fn message(&self) -> (text: String)
        ensures
            match self@ {
                ServerFault::Config(f) => text@ == config_fault_message(f),
                ServerFault::Tls(f) => exists|detail: Seq<char>| text@ == tls_fault_message(
                    f,
                    detail,
                ),
                ServerFault::Io => true,
            },
    {
        match self {
            ServerError::Config(e) => e.message(),
            ServerError::Io(e) => io_error_text(e),
            ServerError::Tls(e) => e.message(),
        }
    }
}

impl From<ServerConfigError> for ServerError {
    fn from(value: ServerConfigError) -> (converted: ServerError) {
        ServerError::Config(value)
    }
}

impl FromSpecImpl<ServerConfigError> for ServerError {
    open spec fn obeys_from_spec() -> bool {
        true
    }

    open spec fn from_spec(value: ServerConfigError) -> ServerError {
        ServerError::Config(value)
    }
}

impl From<std::io::Error> for ServerError {
    fn from(value: std::io::Error) -> (converted: ServerError) {
        ServerError::Io(value)
    }
}

impl FromSpecImpl<std::io::Error> for ServerError {
    open spec fn obeys_from_spec() -> bool {
        true
    }

    open spec fn from_spec(value: std::io::Error) -> ServerError {
        ServerError::Io(value)
    }
}

impl From<TlsConfigLoadError> for ServerError {
    fn from(value: TlsConfigLoadError) -> (converted: ServerError) {
        ServerError::Tls(value)
    }
}

impl FromSpecImpl<TlsConfigLoadError> for ServerError {
    open spec fn obeys_from_spec() -> bool {
        true
    }

    open spec fn from_spec(value: TlsConfigLoadError) -> ServerError {
        ServerError::Tls(value)
    }
}

} // verus!
