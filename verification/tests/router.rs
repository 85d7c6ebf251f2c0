use axum::body::Body;
use axum::http::{Request, StatusCode};
use axum::routing::{get, post};
use axum::Router;
use server::router::{api_prefix, mount};
use server::runtime::build_runtime;
use tower::ServiceExt;

async fn health() -> &'static str {
    "healthy"
}

async fn create() -> &'static str {
    "created"
}

fn routes() -> Router {
    Router::new()
        .route("/health", get(health))
        .route("/users/:id", get(health))
        .route("/users", post(create))
}

fn answer(app: Router, method: &str, path: &str) -> (StatusCode, String) {
    let runtime = build_runtime(Some(1), 1).expect("the runtime is built");
    runtime.block_on(async {
        let request = Request::builder()
            .method(method)
            .uri(path)
            .body(Body::empty())
            .expect("the request is well formed");
        let response = app.oneshot(request).await.expect("the router answers");
        let status = response.status();
        let bytes = hyper::body::to_bytes(response.into_body())
            .await
            .expect("the body is read");
        (status, String::from_utf8(bytes.to_vec()).expect("the body is text"))
    })
}

#[test]
fn api_prefix_is_slash_api() {
    assert_eq!(api_prefix(), "/api");
}

#[test]
fn mounted_route_answers_under_the_prefix() {
    let (status, body) = answer(mount(routes()), "GET", "/api/health");
    assert_eq!(status, StatusCode::OK);
    assert_eq!(body, "healthy");
}

#[test]
fn mounted_route_is_not_found_without_the_prefix() {
    let (status, _) = answer(mount(routes()), "GET", "/health");
    assert_eq!(status, StatusCode::NOT_FOUND);
}

#[test]
fn unmounted_route_answers_at_its_own_path() {
    let (status, body) = answer(routes(), "GET", "/health");
    assert_eq!(status, StatusCode::OK);
    assert_eq!(body, "healthy");
    let (status, _) = answer(routes(), "GET", "/api/health");
    assert_eq!(status, StatusCode::NOT_FOUND);
}

#[test]
fn mounted_route_with_a_parameter_answers_under_the_prefix() {
    let (status, _) = answer(mount(routes()), "GET", "/api/users/17");
    assert_eq!(status, StatusCode::OK);
    let (status, _) = answer(mount(routes()), "GET", "/users/17");
    assert_eq!(status, StatusCode::NOT_FOUND);
}

#[test]
fn mounted_route_keeps_its_method() {
    let (status, body) = answer(mount(routes()), "POST", "/api/users");
    assert_eq!(status, StatusCode::OK);
    assert_eq!(body, "created");
    let (status, _) = answer(mount(routes()), "GET", "/api/users");
    assert_eq!(status, StatusCode::METHOD_NOT_ALLOWED);
}

#[test]
fn mounted_table_answers_nothing_at_other_prefixes() {
    for path in ["/", "/api", "/apihealth", "/v1/health", "/api/unknown"] {
        let (status, _) = answer(mount(routes()), "GET", path);
        assert_eq!(status, StatusCode::NOT_FOUND);
    }
}

#[test]
fn mounting_an_empty_table_serves_nothing() {
    let (status, _) = answer(mount(Router::new()), "GET", "/api");
    assert_eq!(status, StatusCode::NOT_FOUND);
}

#[test]
fn mounting_twice_stacks_the_prefix() {
    let (status, _) = answer(mount(mount(routes())), "GET", "/api/api/health");
    assert_eq!(status, StatusCode::OK);
    let (status, _) = answer(mount(mount(routes())), "GET", "/api/health");
    assert_eq!(status, StatusCode::NOT_FOUND);
}

#[test]
fn mounted_root_route_answers_at_the_prefix_itself() {
    let table = Router::new().route("/", get(health));
    let (status, body) = answer(mount(table.clone()), "GET", "/api");
    assert_eq!(status, StatusCode::OK);
    assert_eq!(body, "healthy");
    let (status, _) = answer(mount(table.clone()), "GET", "/api/");
    assert_eq!(status, StatusCode::NOT_FOUND);
    let (status, _) = answer(mount(table), "GET", "/");
    assert_eq!(status, StatusCode::NOT_FOUND);
}

#[test]
fn mounted_route_that_starts_with_the_prefix_is_served_below_it_only() {
    let table = Router::new().route("/api/health", get(health)).route("/health", get(create));
    let (status, body) = answer(mount(table.clone()), "GET", "/api/api/health");
    assert_eq!(status, StatusCode::OK);
    assert_eq!(body, "healthy");
    let (status, body) = answer(mount(table), "GET", "/api/health");
    assert_eq!(status, StatusCode::OK);
    assert_eq!(body, "created");
}

#[test]
fn mounting_a_table_with_its_own_fallback_keeps_it_below_the_prefix() {
    let table = Router::new().route("/health", get(health)).fallback(create);
    let (status, body) = answer(mount(table.clone()), "GET", "/api/unknown");
    assert_eq!(status, StatusCode::OK);
    assert_eq!(body, "created");
    let (status, _) = answer(mount(table), "GET", "/unknown");
    assert_eq!(status, StatusCode::NOT_FOUND);
}

#[test]
fn mounted_catch_all_behind_a_slash_answers_under_the_prefix() {
    let table = Router::new()
        .route("/files", get(health))
        .route("/files/*rest", get(create));
    let (status, body) = answer(mount(table.clone()), "GET", "/api/files/a/b");
    assert_eq!(status, StatusCode::OK);
    assert_eq!(body, "created");
    let (status, body) = answer(mount(table.clone()), "GET", "/api/files");
    assert_eq!(status, StatusCode::OK);
    assert_eq!(body, "healthy");
    let (status, _) = answer(mount(table), "GET", "/files/a/b");
    assert_eq!(status, StatusCode::NOT_FOUND);
}
