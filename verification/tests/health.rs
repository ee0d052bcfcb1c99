use axum::body::Body;
use axum::http::{Method, Request, StatusCode};
use axum::response::Response;
use backend::app::{app, ASSETS_DIR, ASSETS_PREFIX, BIND_ADDR};
use backend::cors::ALLOWED_ORIGIN;
use backend::health::{health_check, HEALTH_BODY, HEALTH_PATH};
use tower::ServiceExt;

fn answer(request: Request<Body>) -> (StatusCode, Vec<u8>) {
    let runtime = tokio::runtime::Builder::new_current_thread().enable_all().build().unwrap();
    let response: Response = runtime.block_on(app().oneshot(request)).unwrap();
    let status = response.status();
    let body = runtime.block_on(axum::body::to_bytes(response.into_body(), usize::MAX)).unwrap();
    (status, body.to_vec())
}

#[test]
fn health_check_returns_ok() {
    assert_eq!(health_check(), "OK");
    assert_eq!(health_check().len(), 2);
}

#[test]
fn health_endpoint_answers_200_with_body_ok() {
    let request = Request::builder().uri("/api/health").body(Body::empty()).unwrap();
    let (status, body) = answer(request);
    assert_eq!(status, StatusCode::OK);
    assert_eq!(body, b"OK".to_vec());
}

#[test]
fn health_endpoint_ignores_query_parameters() {
    let request =
        Request::builder().uri("/api/health?verbose=1&x=%20y").body(Body::empty()).unwrap();
    let (status, body) = answer(request);
    assert_eq!(status, StatusCode::OK);
    assert_eq!(body, b"OK".to_vec());
}

#[test]
fn health_endpoint_ignores_request_headers() {
    let request = Request::builder()
        .uri("/api/health")
        .header("accept", "application/json")
        .header("authorization", "Bearer none")
        .header("x-anything", "at all")
        .body(Body::empty())
        .unwrap();
    let (status, body) = answer(request);
    assert_eq!(status, StatusCode::OK);
    assert_eq!(body, b"OK".to_vec());
}

#[test]
fn health_endpoint_ignores_a_request_body() {
    let request = Request::builder().uri("/api/health").body(Body::from("ignored")).unwrap();
    let (status, body) = answer(request);
    assert_eq!(status, StatusCode::OK);
    assert_eq!(body, b"OK".to_vec());
}

#[test]
fn health_endpoint_answers_a_foreign_origin_too() {
    let request = Request::builder()
        .uri("/api/health")
        .header("origin", "http://elsewhere.example")
        .body(Body::empty())
        .unwrap();
    let (status, body) = answer(request);
    assert_eq!(status, StatusCode::OK);
    assert_eq!(body, b"OK".to_vec());
}

#[test]
fn health_endpoint_is_for_get_only() {
    let request =
        Request::builder().method(Method::POST).uri("/api/health").body(Body::empty()).unwrap();
    let (status, _) = answer(request);
    assert_eq!(status, StatusCode::METHOD_NOT_ALLOWED);
}

#[test]
fn health_endpoint_is_at_its_path_only() {
    for uri in ["/", "/api", "/api/health/", "/api/healthz", "/health"] {
        let request = Request::builder().uri(uri).body(Body::empty()).unwrap();
        let (status, body) = answer(request);
        assert_eq!(status, StatusCode::NOT_FOUND, "{}", uri);
        assert_ne!(body, b"OK".to_vec());
    }
}

#[test]
fn configuration_has_its_fixed_values() {
    assert_eq!(BIND_ADDR, "127.0.0.1:8080");
    assert_eq!(HEALTH_PATH, "/api/health");
    assert_eq!(HEALTH_BODY, "OK");
    assert_eq!(ASSETS_PREFIX, "/assets");
    assert_eq!(ASSETS_DIR, "assets");
    assert_eq!(ALLOWED_ORIGIN, "http://localhost:3000");
}
