//! The CORS middleware of the two web frameworks, built from a `CorsConfig`:
//! `actix_cors::Cors` for Actix and `tower_http::cors::CorsLayer` for Axum.
use vstd::prelude::*;

use crate::config::CorsConfig;
use crate::http_syntax::{
    is_actix_method, is_header_value, is_method, parse_actix_method, parse_header_value,
    parse_method, ParsedActixMethod, ParsedHeaderValue, ParsedMethod,
};

verus! {

#[verifier::external_type_specification]
#[verifier::external_body]
pub struct ExActixCors(actix_cors::Cors);

#[verifier::external_type_specification]
#[verifier::external_body]
pub struct ExCorsLayer(tower_http::cors::CorsLayer);

/// The origin `*`, which a list of allowed origins may not hold.
pub open spec fn wildcard_origin() -> Seq<char> {
    seq!['*']
}

/// One step of building an Actix CORS policy, named by the `actix_cors::Cors`
/// call it makes and the values it passes.
pub enum ActixCorsStep {
    /// `Cors::permissive()`.
    Permissive,
    /// `Cors::default()`, the policy that allows nothing.
    Restrictive,
    /// `allowed_origin` with this origin.
    AllowedOrigin(Seq<char>),
    /// `allow_any_header()`.
    AllowAnyHeader,
    /// `allowed_methods` with the methods parsed from these names.
    AllowedMethods(Seq<Seq<char>>),
    /// `max_age` with this number of seconds.
    MaxAge(usize),
}

/// Actix CORS middleware, with the steps that built it.
pub struct ActixCors {
    cors: actix_cors::Cors,
    steps: Ghost<Seq<ActixCorsStep>>,
}

impl ActixCors {
    /// The `actix_cors::Cors` calls that built this middleware, in order.
    pub closed spec fn applied(self) -> Seq<ActixCorsStep> {
        self.steps@
    }

    /// The middleware itself, to wrap an Actix `App` with.
    pub fn into_middleware(self) -> (cors: actix_cors::Cors) {
        self.cors
    }
}

/// Calls `actix_cors::Cors::permissive`.
#[verifier::external_body]
fn actix_permissive() -> (cors: ActixCors)
    ensures
        cors.applied() == seq![ActixCorsStep::Permissive],
{
    ActixCors {
        cors: actix_cors::Cors::permissive(),
        steps: Ghost(seq![ActixCorsStep::Permissive]),
    }
}

/// Calls `actix_cors::Cors::default`, the policy that allows nothing.
#[verifier::external_body]
fn actix_restrictive() -> (cors: ActixCors)
    ensures
        cors.applied() == seq![ActixCorsStep::Restrictive],
{
    ActixCors {
        cors: actix_cors::Cors::default(),
        steps: Ghost(seq![ActixCorsStep::Restrictive]),
    }
}

/// Calls `actix_cors::Cors::allowed_origin`. Its source parses the origin as
/// a URI and records a failure, or the origin `*`, as an error of the policy;
/// an origin that parses is then turned into a header value with `unwrap`.
/// The URI parser stops at `#` and does not look at what follows, so that
/// conversion panics unless the origin is a header value, which `requires`
/// asks for (`http` 0.2 checks header values byte by byte by the same rule).
#[verifier::external_body]
fn actix_allowed_origin(cors: ActixCors, origin: &str) -> (next: ActixCors)
    requires
        is_header_value(origin@),
    ensures
        next.applied() == cors.applied().push(ActixCorsStep::AllowedOrigin(origin@)),
{
    ActixCors {
        steps: Ghost(cors.steps@.push(ActixCorsStep::AllowedOrigin(origin@))),
        cors: cors.cors.allowed_origin(origin),
    }
}

/// Calls `actix_cors::Cors::allow_any_header`.
#[verifier::external_body]
fn actix_allow_any_header(cors: ActixCors) -> (next: ActixCors)
    ensures
        next.applied() == cors.applied().push(ActixCorsStep::AllowAnyHeader),
{
    ActixCors {
        steps: Ghost(cors.steps@.push(ActixCorsStep::AllowAnyHeader)),
        cors: cors.cors.allow_any_header(),
    }
}

/// The names that a list of parsed methods came from.
pub open spec fn actix_method_texts(methods: Seq<ParsedActixMethod>) -> Seq<Seq<char>> {
    methods.map_values(|m: ParsedActixMethod| m.text())
}

/// Calls `actix_cors::Cors::allowed_methods` with the parsed methods.
#[verifier::external_body]
fn actix_allowed_methods(cors: ActixCors, methods: Vec<ParsedActixMethod>) -> (next: ActixCors)
    ensures
        next.applied() == cors.applied().push(
            ActixCorsStep::AllowedMethods(actix_method_texts(methods@)),
        ),
{
    ActixCors {
        steps: Ghost(
            cors.steps@.push(ActixCorsStep::AllowedMethods(actix_method_texts(methods@))),
        ),
        cors: cors.cors.allowed_methods(methods.into_iter().map(|m| m.into_value())),
    }
}

/// Calls `actix_cors::Cors::max_age` with a number of seconds.
#[verifier::external_body]
fn actix_max_age(cors: ActixCors, max_age: usize) -> (next: ActixCors)
    ensures
        next.applied() == cors.applied().push(ActixCorsStep::MaxAge(max_age)),
{
    ActixCors {
        steps: Ghost(cors.steps@.push(ActixCorsStep::MaxAge(max_age))),
        cors: cors.cors.max_age(max_age),
    }
}

/// Holds when `build_cors` can turn the policy into Actix middleware: a
/// restricted policy must list only origins that are header values and only
/// methods that Actix can parse.
pub open spec fn actix_can_build(cors: crate::config::CorsView) -> bool {
    !cors.permissive ==> {
        &&& forall|i: int|
            0 <= i < cors.allowed_methods.len() ==> is_actix_method(
                #[trigger] cors.allowed_methods[i],
            )
        &&& forall|i: int|
            0 <= i < cors.allowed_origins.len() ==> is_header_value(
                #[trigger] cors.allowed_origins[i],
            )
    }
}

/// The steps that build the Actix middleware of a policy: the permissive
/// policy as such; otherwise the restrictive policy, each listed origin in
/// order, any header, the listed methods when there are any, and the
/// max-age when one is set.
pub open spec fn actix_cors_steps(cors: crate::config::CorsView) -> Seq<ActixCorsStep> {
    if cors.permissive {
        seq![ActixCorsStep::Permissive]
    } else {
        let origins = seq![ActixCorsStep::Restrictive] + cors.allowed_origins.map_values(
            |o: Seq<char>| ActixCorsStep::AllowedOrigin(o),
        ) + seq![ActixCorsStep::AllowAnyHeader];
        let methods = if cors.allowed_methods.len() > 0 {
            origins.push(ActixCorsStep::AllowedMethods(cors.allowed_methods))
        } else {
            origins
        };
        match cors.max_age {
            Some(max_age) => methods.push(ActixCorsStep::MaxAge(max_age)),
            None => methods,
        }
    }
}

/// The Actix CORS middleware of a policy, built by `actix_cors_steps`.
pub fn build_cors(config: &CorsConfig) -> (cors: ActixCors)
    requires
        actix_can_build(config@),
    ensures
        cors.applied() == actix_cors_steps(config@),
{
    if config.is_permissive() {
        return actix_permissive();
    }
    let mut cors = actix_restrictive();
    let origins = config.allowed_origins();
    let ghost origin_steps = config@.allowed_origins.map_values(
        |o: Seq<char>| ActixCorsStep::AllowedOrigin(o),
    );
    for i in 0..origins.len()
        invariant
            origins.deep_view() == config@.allowed_origins,
            origin_steps == config@.allowed_origins.map_values(
                |o: Seq<char>| ActixCorsStep::AllowedOrigin(o),
            ),
            cors.applied() == seq![ActixCorsStep::Restrictive] + origin_steps.take(i as int),
            actix_can_build(config@),
            !config@.permissive,
    {
        assert(origins@[i as int]@ == config@.allowed_origins[i as int]);
        cors = actix_allowed_origin(cors, origins[i].as_str());
        assert(origin_steps.take(i + 1) =~= origin_steps.take(i as int).push(
            ActixCorsStep::AllowedOrigin(config@.allowed_origins[i as int]),
        ));
    }
    assert(origin_steps.take(origins@.len() as int) =~= origin_steps);
    cors = actix_allow_any_header(cors);
    let names = config.allowed_methods();
    let n = names.len();
    let mut methods: Vec<ParsedActixMethod> = Vec::new();
    for i in 0..n
        invariant
            n == names@.len(),
            names.deep_view() == config@.allowed_methods,
            actix_can_build(config@),
            !config@.permissive,
            methods@.len() == i,
            actix_method_texts(methods@) == config@.allowed_methods.take(i as int),
    {
        assert(names@[i as int]@ == config@.allowed_methods[i as int]);
        let method = parse_actix_method(names[i].as_str());
        let ghost before = methods@;
        methods.push(method.unwrap());
        assert(methods@ =~= before.push(methods@[i as int]));
        assert(actix_method_texts(methods@) =~= config@.allowed_methods.take(i + 1));
    }
    assert(config@.allowed_methods.take(n as int) =~= config@.allowed_methods);
    if methods.len() > 0 {
        cors = actix_allowed_methods(cors, methods);
    } else {
        assert(config@.allowed_methods.len() == 0);
    }
    match config.max_age() {
        Some(max_age) => actix_max_age(cors, max_age),
        None => cors,
    }
}

/// One step of building a Tower CORS layer, named by the
/// `tower_http::cors::CorsLayer` calls it makes and the values it passes.
pub enum LayerStep {
    /// `CorsLayer::permissive()`.
    Permissive,
    /// `CorsLayer::new()`, `allow_origin` with these origins,
    /// `allow_methods` with the methods parsed from these names, and
    /// `allow_headers(Any)`.
    Restricted { origins: Seq<Seq<char>>, methods: Seq<Seq<char>> },
    /// `max_age` with a duration of this number of seconds.
    MaxAge(u64),
}

/// A Tower CORS layer, with the steps that built it.
pub struct CorsLayerConfig {
    layer: tower_http::cors::CorsLayer,
    steps: Ghost<Seq<LayerStep>>,
}

impl CorsLayerConfig {
    /// The `tower_http::cors::CorsLayer` calls that built this layer, in
    /// order.
    pub closed spec fn applied(self) -> Seq<LayerStep> {
        self.steps@
    }

    /// The layer itself, to add to an Axum `Router`.
    pub fn into_layer(self) -> (layer: tower_http::cors::CorsLayer) {
        self.layer
    }
}

/// The texts that a list of parsed origins came from.
pub open spec fn origin_texts(origins: Seq<ParsedHeaderValue>) -> Seq<Seq<char>> {
    origins.map_values(|o: ParsedHeaderValue| o.text())
}

/// The texts that a list of parsed methods came from.
pub open spec fn method_texts(methods: Seq<ParsedMethod>) -> Seq<Seq<char>> {
    methods.map_values(|m: ParsedMethod| m.text())
}

/// Calls `tower_http::cors::CorsLayer::permissive`.
#[verifier::external_body]
fn layer_permissive() -> (layer: CorsLayerConfig)
    ensures
        layer.applied() == seq![LayerStep::Permissive],
{
    CorsLayerConfig {
        layer: tower_http::cors::CorsLayer::permissive(),
        steps: Ghost(seq![LayerStep::Permissive]),
    }
}

/// Calls `tower_http::cors::CorsLayer::new()`, then `allow_origin` with the
/// list of origins, `allow_methods` with the list of methods and
/// `allow_headers(Any)`. The source of `AllowOrigin::list` panics when the
/// list holds the header value `*`. A `ParsedHeaderValue` holds exactly the
/// bytes of the text it was parsed from, so none of the values is `*` when
/// none of the texts is.
#[verifier::external_body]
fn layer_restricted(origins: Vec<ParsedHeaderValue>, methods: Vec<ParsedMethod>) -> (layer:
    CorsLayerConfig)
    requires
        forall|i: int| 0 <= i < origins@.len() ==> #[trigger] origins@[i].text() != wildcard_origin(),
    ensures
        layer.applied() == seq![
            LayerStep::Restricted { origins: origin_texts(origins@), methods: method_texts(methods@) },
        ],
{
    CorsLayerConfig {
        steps: Ghost(seq![
            LayerStep::Restricted { origins: origin_texts(origins@), methods: method_texts(methods@) },
        ]),
        layer: tower_http::cors::CorsLayer::new().allow_origin(
            origins.into_iter().map(|origin| origin.into_value()).collect::<Vec<_>>(),
        ).allow_methods(methods.into_iter().map(|method| method.into_value()).collect::<Vec<_>>())
            .allow_headers(tower_http::cors::Any),
    }
}

/// Calls `tower_http::cors::CorsLayer::max_age` with a duration of the
/// given number of seconds.
#[verifier::external_body]
fn layer_max_age(layer: CorsLayerConfig, seconds: u64) -> (next: CorsLayerConfig)
    ensures
        next.applied() == layer.applied().push(LayerStep::MaxAge(seconds)),
{
    CorsLayerConfig {
        steps: Ghost(layer.steps@.push(LayerStep::MaxAge(seconds))),
        layer: layer.layer.max_age(std::time::Duration::from_secs(seconds)),
    }
}

/// Holds when `build_cors_layer` can turn the policy into a Tower layer: a
/// restricted policy must list only origins that are header values other
/// than `*`, and only methods that `http` parses.
pub open spec fn layer_can_build(cors: crate::config::CorsView) -> bool {
    !cors.permissive ==> {
        &&& forall|i: int|
            0 <= i < cors.allowed_methods.len() ==> is_method(#[trigger] cors.allowed_methods[i])
        &&& forall|i: int|
            0 <= i < cors.allowed_origins.len() ==> is_header_value(
                #[trigger] cors.allowed_origins[i],
            ) && cors.allowed_origins[i] != wildcard_origin()
    }
}

/// The steps that build the Tower layer of a policy: the permissive layer
/// as such; otherwise the listed origins and methods with any header, then
/// the max-age when one is set.
pub open spec fn layer_steps(cors: crate::config::CorsView) -> Seq<LayerStep> {
    if cors.permissive {
        seq![LayerStep::Permissive]
    } else {
        let restricted = seq![
            LayerStep::Restricted { origins: cors.allowed_origins, methods: cors.allowed_methods },
        ];
        match cors.max_age {
            Some(max_age) => restricted.push(LayerStep::MaxAge(max_age as u64)),
            None => restricted,
        }
    }
}

/// The Tower CORS layer of a policy, built by `layer_steps`.
pub fn build_cors_layer(config: &CorsConfig) -> (layer: CorsLayerConfig)
    requires
        layer_can_build(config@),
    ensures
        layer.applied() == layer_steps(config@),
{
    if config.is_permissive() {
        return layer_permissive();
    }
    let names = config.allowed_methods();
    let n = names.len();
    let mut methods: Vec<ParsedMethod> = Vec::new();
    for i in 0..n
        invariant
            n == names@.len(),
            names.deep_view() == config@.allowed_methods,
            layer_can_build(config@),
            !config@.permissive,
            methods@.len() == i,
            method_texts(methods@) == config@.allowed_methods.take(i as int),
    {
        assert(names@[i as int]@ == config@.allowed_methods[i as int]);
        let method = parse_method(names[i].as_str());
        let ghost before = methods@;
        methods.push(method.unwrap());
        assert(methods@ =~= before.push(methods@[i as int]));
        assert(method_texts(methods@) =~= config@.allowed_methods.take(i + 1));
    }
    assert(config@.allowed_methods.take(n as int) =~= config@.allowed_methods);
    let texts = config.allowed_origins();
    let m = texts.len();
    let mut origins: Vec<ParsedHeaderValue> = Vec::new();
    for i in 0..m
        invariant
            m == texts@.len(),
            texts.deep_view() == config@.allowed_origins,
            layer_can_build(config@),
            !config@.permissive,
            origins@.len() == i,
            origin_texts(origins@) == config@.allowed_origins.take(i as int),
            forall|j: int| 0 <= j < i ==> #[trigger] origins@[j].text() != wildcard_origin(),
    {
        assert(texts@[i as int]@ == config@.allowed_origins[i as int]);
        let value = parse_header_value(texts[i].as_str());
        let ghost before = origins@;
        origins.push(value.unwrap());
        assert(origins@ =~= before.push(origins@[i as int]));
        assert(origin_texts(origins@) =~= config@.allowed_origins.take(i + 1));
    }
    assert(config@.allowed_origins.take(m as int) =~= config@.allowed_origins);
    let layer = layer_restricted(origins, methods);
    match config.max_age() {
        Some(max_age) => layer_max_age(layer, max_age as u64),
        None => layer,
    }
}

/// Law: the Actix middleware of a permissive policy is `Cors::permissive()`
/// and nothing else.
pub proof fn lemma_actix_permissive_steps(cors: crate::config::CorsView)
    requires
        cors.permissive,
    ensures
        actix_cors_steps(cors) == seq![ActixCorsStep::Permissive],
{
}

/// Law: the Actix middleware of a restricted policy starts from the policy
/// that allows nothing, allows each listed origin in order, then allows any
/// request header; after that it allows all the listed methods (when there
/// are any) and sets the max-age (when one is set), and makes no other call.
pub proof fn lemma_actix_restricted_steps(cors: crate::config::CorsView)
    requires
        !cors.permissive,
    ensures
        actix_cors_steps(cors).len() == cors.allowed_origins.len() + 2 + (if cors.allowed_methods.len()
            > 0 {
            1int
        } else {
            0int
        }) + (if cors.max_age is Some {
            1int
        } else {
            0int
        }),
        actix_cors_steps(cors)[0] == ActixCorsStep::Restrictive,
        forall|i: int|
            0 <= i < cors.allowed_origins.len() ==> #[trigger] actix_cors_steps(cors)[i + 1]
                == ActixCorsStep::AllowedOrigin(cors.allowed_origins[i]),
        actix_cors_steps(cors)[cors.allowed_origins.len() + 1int] == ActixCorsStep::AllowAnyHeader,
        cors.allowed_methods.len() > 0 ==> actix_cors_steps(cors)[cors.allowed_origins.len() + 2int]
            == ActixCorsStep::AllowedMethods(cors.allowed_methods),
        cors.max_age matches Some(m) ==> actix_cors_steps(cors).last() == ActixCorsStep::MaxAge(m),
{
    let origins = seq![ActixCorsStep::Restrictive] + cors.allowed_origins.map_values(
        |o: Seq<char>| ActixCorsStep::AllowedOrigin(o),
    ) + seq![ActixCorsStep::AllowAnyHeader];
    assert forall|i: int| 0 <= i < cors.allowed_origins.len() implies #[trigger] origins[i + 1]
        == ActixCorsStep::AllowedOrigin(cors.allowed_origins[i]) by {}
    assert(origins[cors.allowed_origins.len() + 1int] == ActixCorsStep::AllowAnyHeader);
}

/// Law: the Tower layer of a permissive policy is `CorsLayer::permissive()`
/// and nothing else.
pub proof fn lemma_layer_permissive_steps(cors: crate::config::CorsView)
    requires
        cors.permissive,
    ensures
        layer_steps(cors) == seq![LayerStep::Permissive],
{
}

/// Law: the Tower layer of a restricted policy is given all the listed
/// origins and all the listed methods, in order, then the max-age when one
/// is set, and nothing else.
pub proof fn lemma_layer_restricted_steps(cors: crate::config::CorsView)
    requires
        !cors.permissive,
    ensures
        layer_steps(cors)[0] == (LayerStep::Restricted {
            origins: cors.allowed_origins,
            methods: cors.allowed_methods,
        }),
        layer_steps(cors).len() == if cors.max_age is Some {
            2int
        } else {
            1int
        },
        cors.max_age matches Some(m) ==> layer_steps(cors)[1] == LayerStep::MaxAge(m as u64),
{
}

} // verus!
