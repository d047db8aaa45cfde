use axum::{
    body::Body,
    http::{header, Method, Request, StatusCode},
    routing::get,
    Router,
};
use cloudiful_server::{build_cors, build_cors_layer, CorsConfig, ServerConfig};
use tower::ServiceExt;
use actix_web::{http::header as actix_header, web, App, HttpResponse};

#[test]
fn restricted_cors_sets_preflight_headers() {
    let config = ServerConfig::new()
        .with_cors(
            CorsConfig::restricted(&["https://allowed.example"])
                .with_allowed_methods(&["GET", "POST"]),
        )
        .build()
        .unwrap();

    let app = Router::new()
        .route("/health", get(|| async { "ok" }))
        .layer(build_cors_layer(config.cors()).into_layer());

    let runtime = tokio::runtime::Runtime::new().unwrap();
    let response = runtime.block_on(async {
        app.oneshot(
            Request::builder()
                .method(Method::OPTIONS)
                .uri("/health")
                .header(header::ORIGIN, "https://allowed.example")
                .header(header::ACCESS_CONTROL_REQUEST_METHOD, "GET")
                .body(Body::empty())
                .unwrap(),
        )
        .await
        .unwrap()
    });

    assert!(matches!(
        response.status(),
        StatusCode::OK | StatusCode::NO_CONTENT
    ));
    assert_eq!(
        response
            .headers()
            .get(header::ACCESS_CONTROL_ALLOW_ORIGIN)
            .unwrap(),
        "https://allowed.example"
    );
    assert!(response
        .headers()
        .contains_key(header::ACCESS_CONTROL_ALLOW_METHODS));
}

#[test]
fn restricted_layer_sets_max_age_and_ignores_other_origins() {
    let cors = CorsConfig::restricted(&["https://allowed.example"]).with_max_age(120);
    let app = Router::new()
        .route("/health", get(|| async { "ok" }))
        .layer(build_cors_layer(&cors).into_layer());

    let runtime = tokio::runtime::Runtime::new().unwrap();
    let (allowed, other) = runtime.block_on(async {
        let preflight = |origin: &str| {
            Request::builder()
                .method(Method::OPTIONS)
                .uri("/health")
                .header(header::ORIGIN, origin)
                .header(header::ACCESS_CONTROL_REQUEST_METHOD, "POST")
                .body(Body::empty())
                .unwrap()
        };
        let allowed = app
            .clone()
            .oneshot(preflight("https://allowed.example"))
            .await
            .unwrap();
        let other = app.oneshot(preflight("https://other.example")).await.unwrap();
        (allowed, other)
    });

    assert_eq!(
        allowed.headers().get(header::ACCESS_CONTROL_MAX_AGE).unwrap(),
        "120"
    );
    assert!(other
        .headers()
        .get(header::ACCESS_CONTROL_ALLOW_ORIGIN)
        .is_none());
}

#[test]
fn permissive_layer_allows_any_origin() {
    let app = Router::new()
        .route("/health", get(|| async { "ok" }))
        .layer(build_cors_layer(&CorsConfig::permissive()).into_layer());
    let runtime = tokio::runtime::Runtime::new().unwrap();
    let response = runtime.block_on(async {
        app.oneshot(
            Request::builder()
                .method(Method::GET)
                .uri("/health")
                .header(header::ORIGIN, "https://anywhere.example")
                .body(Body::empty())
                .unwrap(),
        )
        .await
        .unwrap()
    });
    assert_eq!(response.status(), StatusCode::OK);
    assert_eq!(
        response
            .headers()
            .get(header::ACCESS_CONTROL_ALLOW_ORIGIN)
            .unwrap(),
        "*"
    );
}

#[test]
fn restricted_cors_adds_expected_headers() {
    let cors = CorsConfig::restricted(&["https://allowed.example"])
        .with_allowed_methods(&["GET", "POST"]);

    actix_web::rt::System::new().block_on(async move {
        let app = actix_web::test::init_service(App::new().wrap(build_cors(&cors).into_middleware()).route(
            "/health",
            web::get().to(|| async { HttpResponse::Ok().finish() }),
        ))
        .await;

        let req = actix_web::test::TestRequest::default()
            .method(actix_web::http::Method::OPTIONS)
            .uri("/health")
            .insert_header((actix_header::ORIGIN, "https://allowed.example"))
            .insert_header((actix_header::ACCESS_CONTROL_REQUEST_METHOD, "GET"))
            .to_request();

        let resp = actix_web::test::call_service(&app, req).await;

        assert_eq!(resp.status(), actix_web::http::StatusCode::OK);
        assert_eq!(
            resp.headers()
                .get(actix_header::ACCESS_CONTROL_ALLOW_ORIGIN)
                .unwrap(),
            "https://allowed.example"
        );
        let allowed_methods = resp
            .headers()
            .get(actix_header::ACCESS_CONTROL_ALLOW_METHODS)
            .unwrap()
            .to_str()
            .unwrap();

        assert!(allowed_methods.contains("GET"));
        assert!(allowed_methods.contains("POST"));
    });
}
