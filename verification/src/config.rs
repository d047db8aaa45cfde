//! The server configuration: listen address, CORS policy and TLS material,
//! and the `build` step that checks it.
use vstd::prelude::*;
use vstd::string::*;

use crate::error::{ConfigFault, ServerConfigError};
use crate::http_syntax::{is_header_value, is_method, is_valid_header_value, is_valid_method};
use crate::text::{
    first_refused, is_blank, lemma_first_refused_none, lemma_first_refused_skip,
    normalize_listen_addr, normalized_listen_addr, str_views, strings_from, text_is_blank,
};

verus! {

/// The listen address a configuration starts with.
pub const DEFAULT_LISTEN_ADDR: &'static str = "127.0.0.1:3000";

/// The view of an optional owned string.
pub open spec fn opt_text(s: Option<String>) -> Option<Seq<char>> {
    match s {
        Some(t) => Some(t@),
        None => None,
    }
}

/// The view of an optional string slice.
pub open spec fn opt_str(s: Option<&str>) -> Option<Seq<char>> {
    match s {
        Some(t) => Some(t@),
        None => None,
    }
}

/// The acceptance rule for CORS origins: each must be a header value.
pub open spec fn origin_rule() -> spec_fn(Seq<char>) -> bool {
    |s: Seq<char>| is_header_value(s)
}

/// The acceptance rule for CORS methods: each must be a method token.
pub open spec fn method_rule() -> spec_fn(Seq<char>) -> bool {
    |s: Seq<char>| is_method(s)
}

/// The methods a restricted CORS policy allows unless told otherwise.
pub open spec fn default_restricted_methods() -> Seq<Seq<char>> {
    seq![seq!['G', 'E', 'T'], seq!['P', 'O', 'S', 'T']]
}

/// The preflight max-age, in seconds, of a restricted CORS policy unless
/// told otherwise.
pub open spec fn default_restricted_max_age() -> usize {
    3600
}

#[derive(Clone, Debug, PartialEq, Eq)]
enum CorsMode {
    Permissive,
    Restricted { allowed_origins: Vec<String> },
}

/// A CORS policy: either permissive, or restricted to listed origins and
/// methods.
#[derive(Clone, Debug, PartialEq, Eq)]
pub struct CorsConfig {
    mode: CorsMode,
    allowed_methods: Vec<String>,
    max_age: Option<usize>,
}

/// The abstract content of a `CorsConfig`. A permissive policy lists no
/// origins.
pub struct CorsView {
    pub permissive: bool,
    pub allowed_origins: Seq<Seq<char>>,
    pub allowed_methods: Seq<Seq<char>>,
    pub max_age: Option<usize>,
}

impl View for CorsConfig {
    type V = CorsView;

    closed spec fn view(&self) -> CorsView {
        CorsView {
            permissive: self.mode is Permissive,
            allowed_origins: match self.mode {
                CorsMode::Permissive => Seq::empty(),
                CorsMode::Restricted { allowed_origins } => allowed_origins.deep_view(),
            },
            allowed_methods: self.allowed_methods.deep_view(),
            max_age: self.max_age,
        }
    }
}

/// The permissive CORS policy.
pub open spec fn permissive_cors() -> CorsView {
    CorsView {
        permissive: true,
        allowed_origins: Seq::empty(),
        allowed_methods: Seq::empty(),
        max_age: None,
    }
}

/// What, if anything, makes a CORS policy unusable. Restricted policies are
/// checked in this order: origins present, each origin a header value,
/// methods present, each method a token; the first failure is reported.
pub open spec fn cors_fault(cors: CorsView) -> Option<ConfigFault> {
    if cors.permissive {
        None
    } else if cors.allowed_origins.len() == 0 {
        Some(ConfigFault::MissingCorsOrigins)
    } else if let Some(origin) = first_refused(cors.allowed_origins, origin_rule()) {
        Some(ConfigFault::InvalidCorsOrigin(origin))
    } else if cors.allowed_methods.len() == 0 {
        Some(ConfigFault::MissingCorsMethods)
    } else if let Some(method) = first_refused(cors.allowed_methods, method_rule()) {
        Some(ConfigFault::InvalidCorsMethod(method))
    } else {
        None
    }
}

impl Default for CorsConfig {
    fn default() -> (cors: CorsConfig)
        ensures
            cors@ == permissive_cors(),
    {
        CorsConfig::permissive()
    }
}

impl CorsConfig {
    /// A policy that allows any origin, method and header.
    pub fn permissive() -> (cors: CorsConfig)
        ensures
            cors@ == permissive_cors(),
    {
        let cors = CorsConfig {
            mode: CorsMode::Permissive,
            allowed_methods: Vec::new(),
            max_age: None,
        };
        assert(cors.allowed_methods.deep_view() =~= Seq::<Seq<char>>::empty());
        cors
    }

    /// A policy restricted to the given origins, allowing `GET` and `POST`
    /// with a preflight max-age of one hour.
    pub fn restricted(allowed_origins: &[&str]) -> (cors: CorsConfig)
        ensures
            cors@ == (CorsView {
                permissive: false,
                allowed_origins: str_views(allowed_origins@),
                allowed_methods: default_restricted_methods(),
                max_age: Some(default_restricted_max_age()),
            }),
    {
        let get = String::from_str("GET");
        let post = String::from_str("POST");
        proof {
            reveal_strlit("GET");
            reveal_strlit("POST");
            assert(get@ =~= seq!['G', 'E', 'T']);
            assert(post@ =~= seq!['P', 'O', 'S', 'T']);
        }
        let mut methods: Vec<String> = Vec::new();
        methods.push(get);
        methods.push(post);
        assert(methods.deep_view() =~= default_restricted_methods());
        CorsConfig {
            mode: CorsMode::Restricted { allowed_origins: strings_from(allowed_origins) },
            allowed_methods: methods,
            max_age: Some(3600),
        }
    }

    /// Replaces the allowed methods.
    pub fn with_allowed_methods(self, allowed_methods: &[&str]) -> (cors: CorsConfig)
        ensures
            cors@ == (CorsView { allowed_methods: str_views(allowed_methods@), ..self@ }),
    {
        CorsConfig { allowed_methods: strings_from(allowed_methods), ..self }
    }

    /// Sets the preflight max-age in seconds.
    pub fn with_max_age(self, max_age: usize) -> (cors: CorsConfig)
        ensures
            cors@ == (CorsView { max_age: Some(max_age), ..self@ }),
    {
        CorsConfig { max_age: Some(max_age), ..self }
    }

    /// Whether this is the permissive policy.
    pub fn is_permissive(&self) -> (b: bool)
        ensures
            b == self@.permissive,
    {
        match self.mode {
            CorsMode::Permissive => true,
            CorsMode::Restricted { .. } => false,
        }
    }

    /// The allowed origins; none for the permissive policy.
    pub fn allowed_origins(&self) -> (origins: &[String])
        ensures
            origins.deep_view() == self@.allowed_origins,
            self@.permissive ==> origins@.len() == 0,
    {
        match &self.mode {
            CorsMode::Permissive => {
                let none: &[String] = &[];
                assert(none.deep_view() =~= Seq::<Seq<char>>::empty());
                none
            },
            CorsMode::Restricted { allowed_origins } => allowed_origins.as_slice(),
        }
    }

    /// The allowed methods.
    pub fn allowed_methods(&self) -> (methods: &[String])
        ensures
            methods.deep_view() == self@.allowed_methods,
    {
        self.allowed_methods.as_slice()
    }

    /// The preflight max-age in seconds, if one is set.
    pub fn max_age(&self) -> (max_age: Option<usize>)
        ensures
            max_age == self@.max_age,
    {
        self.max_age
    }

    /// Checks the policy: accepts it exactly when `cors_fault` finds nothing,
    /// and otherwise reports that fault.
    pub fn validate(&self) -> (checked: Result<(), ServerConfigError>)
        ensures
            checked is Ok <==> cors_fault(self@) is None,
            checked matches Err(e) ==> cors_fault(self@) == Some(e@),
    {
        match &self.mode {
            CorsMode::Permissive => Ok(()),
            CorsMode::Restricted { allowed_origins } => {
                if allowed_origins.len() == 0 {
                    return Err(ServerConfigError::MissingCorsOrigins);
                }
                let ghost origins = allowed_origins.deep_view();
                let n = allowed_origins.len();
                for i in 0..n
                    invariant
                        n == allowed_origins@.len(),
                        origins == allowed_origins.deep_view(),
                        origins == self@.allowed_origins,
                        !self@.permissive,
                        origins.len() > 0,
                        forall|j: int| 0 <= j < i ==> #[trigger] origin_rule()(origins[j]),
                {
                    if !is_valid_header_value(allowed_origins[i].as_str()) {
                        proof {
                            lemma_first_refused_skip(origins, origin_rule(), i as int);
                            let rest = origins.subrange(i as int, origins.len() as int);
                            assert(rest[0] == origins[i as int]);
                        }
                        return Err(ServerConfigError::InvalidCorsOrigin(allowed_origins[i].clone()));
                    }
                }
                proof {
                    lemma_first_refused_none(origins, origin_rule());
                }
                if self.allowed_methods.len() == 0 {
                    return Err(ServerConfigError::MissingCorsMethods);
                }
                let ghost methods = self.allowed_methods.deep_view();
                let m = self.allowed_methods.len();
                for i in 0..m
                    invariant
                        m == self.allowed_methods@.len(),
                        methods == self.allowed_methods.deep_view(),
                        methods == self@.allowed_methods,
                        !self@.permissive,
                        first_refused(self@.allowed_origins, origin_rule()) is None,
                        self@.allowed_origins.len() > 0,
                        methods.len() > 0,
                        forall|j: int| 0 <= j < i ==> #[trigger] method_rule()(methods[j]),
                {
                    if !is_valid_method(self.allowed_methods[i].as_str()) {
                        proof {
                            lemma_first_refused_skip(methods, method_rule(), i as int);
                            let rest = methods.subrange(i as int, methods.len() as int);
                            assert(rest[0] == methods[i as int]);
                        }
                        return Err(
                            ServerConfigError::InvalidCorsMethod(self.allowed_methods[i].clone()),
                        );
                    }
                }
                proof {
                    lemma_first_refused_none(methods, method_rule());
                }
                Ok(())
            },
        }
    }
}

/// The paths of a TLS setup as configured: the server certificate chain,
/// its private key, and optionally a client CA bundle for mutual TLS.
#[derive(Clone, Debug, PartialEq, Eq)]
pub struct TlsConfig {
    cert_path: Option<String>,
    cert_key_path: Option<String>,
    client_ca: Option<String>,
}

/// The abstract content of a `TlsConfig`.
pub struct TlsView {
    pub cert_path: Option<Seq<char>>,
    pub cert_key_path: Option<Seq<char>>,
    pub client_ca: Option<Seq<char>>,
}

impl View for TlsConfig {
    type V = TlsView;

    closed spec fn view(&self) -> TlsView {
        TlsView {
            cert_path: opt_text(self.cert_path),
            cert_key_path: opt_text(self.cert_key_path),
            client_ca: opt_text(self.client_ca),
        }
    }
}

/// A TLS setup with no path set.
pub open spec fn empty_tls() -> TlsView {
    TlsView { cert_path: None, cert_key_path: None, client_ca: None }
}

/// What, if anything, a TLS setup lacks: the certificate path is checked
/// first, then the key path. The client CA is optional.
pub open spec fn tls_fault(tls: TlsView) -> Option<ConfigFault> {
    if tls.cert_path is None {
        Some(ConfigFault::MissingTlsCertPath)
    } else if tls.cert_key_path is None {
        Some(ConfigFault::MissingTlsKeyPath)
    } else {
        None
    }
}

/// A TLS setup with both server paths present.
#[derive(Clone, Debug, PartialEq, Eq)]
pub struct ValidatedTlsConfig {
    cert_path: String,
    cert_key_path: String,
    client_ca: Option<String>,
}

/// The abstract content of a `ValidatedTlsConfig`.
pub struct ValidatedTlsView {
    pub cert_path: Seq<char>,
    pub cert_key_path: Seq<char>,
    pub client_ca: Option<Seq<char>>,
}

impl View for ValidatedTlsConfig {
    type V = ValidatedTlsView;

    closed spec fn view(&self) -> ValidatedTlsView {
        ValidatedTlsView {
            cert_path: self.cert_path@,
            cert_key_path: self.cert_key_path@,
            client_ca: opt_text(self.client_ca),
        }
    }
}

/// The validated form of a complete TLS setup.
pub open spec fn validated_tls(tls: TlsView) -> ValidatedTlsView {
    ValidatedTlsView {
        cert_path: tls.cert_path.unwrap(),
        cert_key_path: tls.cert_key_path.unwrap(),
        client_ca: tls.client_ca,
    }
}

impl Default for TlsConfig {
    fn default() -> (tls: TlsConfig)
        ensures
            tls@ == empty_tls(),
    {
        TlsConfig { cert_path: None, cert_key_path: None, client_ca: None }
    }
}

impl TlsConfig {
    /// A TLS setup with no path set.
    pub fn new() -> (tls: TlsConfig)
        ensures
            tls@ == empty_tls(),
    {
        TlsConfig { cert_path: None, cert_key_path: None, client_ca: None }
    }

    /// Sets the path of the PEM certificate chain.
    pub fn with_cert_path(self, cert_path: &str) -> (tls: TlsConfig)
        ensures
            tls@ == (TlsView { cert_path: Some(cert_path@), ..self@ }),
    {
        TlsConfig { cert_path: Some(String::from_str(cert_path)), ..self }
    }

    /// Sets the path of the PEM private key.
    pub fn with_cert_key_path(self, cert_key_path: &str) -> (tls: TlsConfig)
        ensures
            tls@ == (TlsView { cert_key_path: Some(cert_key_path@), ..self@ }),
    {
        TlsConfig { cert_key_path: Some(String::from_str(cert_key_path)), ..self }
    }

    /// Sets the path of the PEM bundle of CAs that client certificates must
    /// chain to; with it, the server requires client certificates.
    pub fn with_client_ca(self, client_ca: &str) -> (tls: TlsConfig)
        ensures
            tls@ == (TlsView { client_ca: Some(client_ca@), ..self@ }),
    {
        TlsConfig { client_ca: Some(String::from_str(client_ca)), ..self }
    }

    /// Another name for `with_client_ca`, with the same effect.
    pub fn with_client_ca_path(self, client_ca_path: &str) -> (tls: TlsConfig)
        ensures
            tls@ == (TlsView { client_ca: Some(client_ca_path@), ..self@ }),
    {
        self.with_client_ca(client_ca_path)
    }

    /// The certificate chain path, if set.
    pub fn cert_path(&self) -> (path: Option<&str>)
        ensures
            opt_str(path) == self@.cert_path,
    {
        match &self.cert_path {
            Some(p) => Some(p.as_str()),
            None => None,
        }
    }

    /// The private key path, if set.
    pub fn cert_key_path(&self) -> (path: Option<&str>)
        ensures
            opt_str(path) == self@.cert_key_path,
    {
        match &self.cert_key_path {
            Some(p) => Some(p.as_str()),
            None => None,
        }
    }

    /// The client CA bundle path, if set.
    pub fn client_ca(&self) -> (path: Option<&str>)
        ensures
            opt_str(path) == self@.client_ca,
    {
        match &self.client_ca {
            Some(p) => Some(p.as_str()),
            None => None,
        }
    }

    /// Another name for `client_ca`, with the same result.
    pub fn client_ca_path(&self) -> (path: Option<&str>)
        ensures
            opt_str(path) == self@.client_ca,
    {
        self.client_ca()
    }

    /// Checks that both server paths are present; keeps all three paths.
    pub fn validate(self) -> (checked: Result<ValidatedTlsConfig, ServerConfigError>)
        ensures
            match checked {
                Ok(v) => tls_fault(self@) is None && v@ == validated_tls(self@),
                Err(e) => tls_fault(self@) == Some(e@),
            },
    {
        let cert_path = match self.cert_path {
            Some(p) => p,
            None => {
                return Err(ServerConfigError::MissingTlsCertPath);
            },
        };
        let cert_key_path = match self.cert_key_path {
            Some(p) => p,
            None => {
                return Err(ServerConfigError::MissingTlsKeyPath);
            },
        };
        Ok(ValidatedTlsConfig { cert_path, cert_key_path, client_ca: self.client_ca })
    }
}

impl ValidatedTlsConfig {
    /// The certificate chain path.
    pub fn cert_path(&self) -> (path: &str)
        ensures
            path@ == self@.cert_path,
    {
        self.cert_path.as_str()
    }

    /// The private key path.
    pub fn cert_key_path(&self) -> (path: &str)
        ensures
            path@ == self@.cert_key_path,
    {
        self.cert_key_path.as_str()
    }

    /// The client CA bundle path, if mutual TLS is configured.
    pub fn client_ca(&self) -> (path: Option<&str>)
        ensures
            opt_str(path) == self@.client_ca,
    {
        match &self.client_ca {
            Some(p) => Some(p.as_str()),
            None => None,
        }
    }
}

/// A server configuration under construction, carrying optional
/// application data of type `U`.
#[derive(Clone, Debug)]
pub struct ServerConfig<U = ()> {
    listen_addr: String,
    app_data: Option<U>,
    cors: CorsConfig,
    tls: Option<TlsConfig>,
}

/// The abstract content of a `ServerConfig`.
pub struct ServerConfigView<U> {
    pub listen_addr: Seq<char>,
    pub app_data: Option<U>,
    pub cors: CorsView,
    pub tls: Option<TlsView>,
}

impl<U> View for ServerConfig<U> {
    type V = ServerConfigView<U>;

    closed spec fn view(&self) -> ServerConfigView<U> {
        ServerConfigView {
            listen_addr: self.listen_addr@,
            app_data: self.app_data,
            cors: self.cors@,
            tls: match self.tls {
                Some(t) => Some(t@),
                None => None,
            },
        }
    }
}

/// The configuration a server starts from: the default listen address,
/// no application data, the permissive CORS policy, and no TLS.
pub open spec fn default_server_config() -> ServerConfigView<()> {
    ServerConfigView {
        listen_addr: DEFAULT_LISTEN_ADDR@,
        app_data: None,
        cors: permissive_cors(),
        tls: None,
    }
}

/// What, if anything, makes a server configuration unusable: a blank
/// listen address first, then the CORS policy, then the TLS setup.
pub open spec fn build_fault<U>(config: ServerConfigView<U>) -> Option<ConfigFault> {
    if is_blank(config.listen_addr) {
        Some(ConfigFault::MissingListenAddr)
    } else if cors_fault(config.cors) is Some {
        cors_fault(config.cors)
    } else if let Some(tls) = config.tls {
        tls_fault(tls)
    } else {
        None
    }
}

/// A server configuration that passed `build`.
#[derive(Clone, Debug)]
pub struct ValidatedServerConfig<U = ()> {
    listen_addr: String,
    app_data: Option<U>,
    cors: CorsConfig,
    tls: Option<ValidatedTlsConfig>,
}

/// The abstract content of a `ValidatedServerConfig`.
pub struct ValidatedServerConfigView<U> {
    pub listen_addr: Seq<char>,
    pub app_data: Option<U>,
    pub cors: CorsView,
    pub tls: Option<ValidatedTlsView>,
}

impl<U> View for ValidatedServerConfig<U> {
    type V = ValidatedServerConfigView<U>;

    closed spec fn view(&self) -> ValidatedServerConfigView<U> {
        ValidatedServerConfigView {
            listen_addr: self.listen_addr@,
            app_data: self.app_data,
            cors: self.cors@,
            tls: match self.tls {
                Some(t) => Some(t@),
                None => None,
            },
        }
    }
}

/// The validated form of a server configuration that `build` accepts.
pub open spec fn validated_config<U>(config: ServerConfigView<U>) -> ValidatedServerConfigView<U> {
    ValidatedServerConfigView {
        listen_addr: config.listen_addr,
        app_data: config.app_data,
        cors: config.cors,
        tls: match config.tls {
            Some(t) => Some(validated_tls(t)),
            None => None,
        },
    }
}

/// What every validated configuration satisfies: a listen address that is
/// not blank and a usable CORS policy.
pub open spec fn is_well_formed<U>(config: ValidatedServerConfigView<U>) -> bool {
    !is_blank(config.listen_addr) && cors_fault(config.cors) is None
}

impl Default for ServerConfig<()> {
    fn default() -> (config: ServerConfig<()>)
        ensures
            config@ == default_server_config(),
    {
        ServerConfig {
            listen_addr: String::from_str(DEFAULT_LISTEN_ADDR),
            app_data: None,
            cors: CorsConfig::permissive(),
            tls: None,
        }
    }
}

impl ServerConfig<()> {
    /// The default configuration.
    pub fn new() -> (config: ServerConfig<()>)
        ensures
            config@ == default_server_config(),
    {
        ServerConfig::default()
    }
}

impl<U> ServerConfig<U> {
    /// Sets the listen address, normalised by `normalize_listen_addr`.
    pub fn with_listen_addr(self, listen_addr: &str) -> (config: ServerConfig<U>)
        ensures
            config@ == (ServerConfigView {
                listen_addr: normalized_listen_addr(listen_addr@),
                ..self@
            }),
    {
        ServerConfig { listen_addr: normalize_listen_addr(listen_addr), ..self }
    }

    /// Attaches application data, keeping every other setting.
    pub fn with_app_data<T>(self, app_data: T) -> (config: ServerConfig<T>)
        ensures
            config@ == (ServerConfigView {
                listen_addr: self@.listen_addr,
                app_data: Some(app_data),
                cors: self@.cors,
                tls: self@.tls,
            }),
    {
        ServerConfig {
            listen_addr: self.listen_addr,
            app_data: Some(app_data),
            cors: self.cors,
            tls: self.tls,
        }
    }

    /// Replaces the CORS policy.
    pub fn with_cors(self, cors: CorsConfig) -> (config: ServerConfig<U>)
        ensures
            config@ == (ServerConfigView { cors: cors@, ..self@ }),
    {
        ServerConfig { cors, ..self }
    }

    /// Replaces the TLS setup.
    pub fn with_tls(self, tls: TlsConfig) -> (config: ServerConfig<U>)
        ensures
            config@ == (ServerConfigView { tls: Some(tls@), ..self@ }),
    {
        ServerConfig { tls: Some(tls), ..self }
    }

    /// Checks the configuration: succeeds exactly when `build_fault` finds
    /// nothing, and keeps every setting; otherwise reports that fault.
    pub fn build(self) -> (built: Result<ValidatedServerConfig<U>, ServerConfigError>)
        ensures
            match built {
                Ok(v) => build_fault(self@) is None && v@ == validated_config(self@)
                    && is_well_formed(v@),
                Err(e) => build_fault(self@) == Some(e@),
            },
    {
        let ghost before = self@;
        if text_is_blank(self.listen_addr.as_str()) {
            return Err(ServerConfigError::MissingListenAddr);
        }
        match self.cors.validate() {
            Ok(()) => {},
            Err(e) => {
                return Err(e);
            },
        }
        let tls = match self.tls {
            Some(t) => match t.validate() {
                Ok(v) => Some(v),
                Err(e) => {
                    return Err(e);
                },
            },
            None => None,
        };
        let built = ValidatedServerConfig {
            listen_addr: self.listen_addr,
            app_data: self.app_data,
            cors: self.cors,
            tls,
        };
        assert(built@ == validated_config(before));
        Ok(built)
    }
}

impl<U> ValidatedServerConfig<U> {
    /// The listen address.
    pub fn listen_addr(&self) -> (addr: &str)
        ensures
            addr@ == self@.listen_addr,
    {
        self.listen_addr.as_str()
    }

    /// The application data, if any was attached.
    pub fn app_data(&self) -> (data: Option<&U>)
        ensures
            match data {
                Some(d) => self@.app_data == Some(*d),
                None => self@.app_data is None,
            },
    {
        self.app_data.as_ref()
    }

    /// The CORS policy.
    pub fn cors(&self) -> (cors: &CorsConfig)
        ensures
            cors@ == self@.cors,
    {
        &self.cors
    }

    /// Whether TLS is configured.
    pub fn tls_enabled(&self) -> (enabled: bool)
        ensures
            enabled == self@.tls is Some,
    {
        self.tls.is_some()
    }

    /// The certificate chain and private key paths, when TLS is configured.
    pub fn tls_paths(&self) -> (paths: Option<(&str, &str)>)
        ensures
            match paths {
                Some((cert, key)) => self@.tls matches Some(t) && cert@ == t.cert_path
                    && key@ == t.cert_key_path,
                None => self@.tls is None,
            },
    {
        match &self.tls {
            Some(t) => Some((t.cert_path.as_str(), t.cert_key_path.as_str())),
            None => None,
        }
    }

    /// The validated TLS setup, when TLS is configured.
    pub fn tls(&self) -> (tls: Option<&ValidatedTlsConfig>)
        ensures
            match tls {
                Some(t) => self@.tls == Some(t@),
                None => self@.tls is None,
            },
    {
        self.tls.as_ref()
    }
}

/// A permissive policy lists no origins, whatever built it.
pub proof fn lemma_permissive_lists_no_origins(cors: CorsConfig)
    requires
        cors@.permissive,
    ensures
        cors@.allowed_origins.len() == 0,
{
}

/// Law: the permissive CORS policy is always usable.
pub proof fn lemma_permissive_cors_is_valid()
    ensures
        cors_fault(permissive_cors()) is None,
{
}

/// The methods a restricted policy starts with are method tokens.
proof fn lemma_default_methods_are_tokens()
    ensures
        first_refused(default_restricted_methods(), method_rule()) is None,
{
    let methods = default_restricted_methods();
    assert(is_method(methods[0]));
    assert(is_method(methods[1]));
    lemma_first_refused_none(methods, method_rule());
}

/// Law: a restricted policy with its default methods is usable exactly when
/// it lists at least one origin and every origin is a header value; the
/// max-age plays no part.
pub proof fn lemma_restricted_cors_validity(origins: Seq<Seq<char>>, max_age: Option<usize>)
    ensures
        cors_fault(
            CorsView {
                permissive: false,
                allowed_origins: origins,
                allowed_methods: default_restricted_methods(),
                max_age,
            },
        ) is None <==> origins.len() > 0 && forall|i: int|
            0 <= i < origins.len() ==> is_header_value(#[trigger] origins[i]),
{
    lemma_default_methods_are_tokens();
    lemma_first_refused_none(origins, origin_rule());
    if origins.len() > 0 && (forall|i: int|
        0 <= i < origins.len() ==> is_header_value(#[trigger] origins[i])) {
        assert forall|i: int| 0 <= i < origins.len() implies #[trigger] origin_rule()(
            origins[i],
        ) by {
            assert(is_header_value(origins[i]));
        }
    }
    if first_refused(origins, origin_rule()) is None {
        assert forall|i: int| 0 <= i < origins.len() implies is_header_value(
            #[trigger] origins[i],
        ) by {
            assert(origin_rule()(origins[i]));
        }
    }
}

/// Law: TLS is opt-in. Without a TLS setup, a configuration is refused
/// only for a blank listen address or an unusable CORS policy.
pub proof fn lemma_plain_http_needs_no_tls<U>(config: ServerConfigView<U>)
    requires
        config.tls is None,
    ensures
        build_fault(config) is None <==> !is_blank(config.listen_addr) && cors_fault(
            config.cors,
        ) is None,
{
}

/// Law: a TLS setup is complete exactly when both the certificate chain and
/// the private key paths are set; the client CA bundle is optional.
pub proof fn lemma_tls_setup_complete(tls: TlsView)
    ensures
        tls_fault(tls) is None <==> tls.cert_path is Some && tls.cert_key_path is Some,
{
}

/// Law: a port-only listen address such as `:8080` is bound to the wildcard
/// host, giving `0.0.0.0:8080`.
pub proof fn lemma_port_only_listen_addr(port: Seq<char>)
    requires
        port.len() > 0 ==> !crate::text::is_white_space(port.last()),
    ensures
        normalized_listen_addr(seq![':'] + port) == crate::text::wildcard_host() + (seq![':']
            + port),
{
    let addr = seq![':'] + port;
    assert(addr[0] == ':');
    assert(addr.last() == if port.len() > 0 {
        port.last()
    } else {
        ':'
    });
    crate::text::lemma_trim_fixed(addr);
}

/// Law: a configuration that passes `build` keeps every setting as given:
/// the listen address, the application data, the CORS policy in full, and
/// the TLS paths.
pub proof fn lemma_build_keeps_settings<U>(config: ServerConfigView<U>)
    requires
        build_fault(config) is None,
    ensures
        validated_config(config).listen_addr == config.listen_addr,
        validated_config(config).app_data == config.app_data,
        validated_config(config).cors == config.cors,
        validated_config(config).cors.allowed_origins == config.cors.allowed_origins,
        validated_config(config).cors.allowed_methods == config.cors.allowed_methods,
        config.tls is None ==> validated_config(config).tls is None,
        config.tls matches Some(t) ==> validated_config(config).tls matches Some(v) && t.cert_path
            == Some(v.cert_path) && t.cert_key_path == Some(v.cert_key_path) && t.client_ca
            == v.client_ca,
{
    if let Some(t) = config.tls {
        assert(tls_fault(t) is None);
    }
}

} // verus!
