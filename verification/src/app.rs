//! The server's application: the health route, the assets directory and the
//! cross-origin layer around both.

use crate::cors::{
    cors, cors_allowed_methods, cors_allowed_origins, cors_allows_any_header,
    cors_allows_credentials, ALLOWED_ORIGIN,
};
use crate::health::HEALTH_PATH;
use crate::router::{
    is_mount_prefix, is_plain_path, layer_cors, mount_dir, new_router, route_health, router_cors,
    router_health_routes, router_mounts,
};
use axum::Router;
use tower_http::cors::CorsLayer;
use vstd::prelude::*;
use vstd::string::StringSliceAdditionalSpecFns;

verus! {

/// The address that the server listens on.
pub const BIND_ADDR: &'static str = "127.0.0.1:8080";

/// The path prefix under which static files are served.
pub const ASSETS_PREFIX: &'static str = "/assets";

/// The directory that static files are read from.
pub const ASSETS_DIR: &'static str = "assets";

/// What holds of the application's router whatever directory it serves:
/// the health handler answers on the health path and nowhere else, files of
/// `dir` are served under the assets prefix and nowhere else, and one
/// cross-origin layer wraps both, which lists the allowed origin and the
/// methods `GET` and `POST`, allows every request header and sends no
/// credentials header.
pub open spec fn is_app(router: Router, dir: Seq<char>) -> bool {
    &&& router_health_routes(router) == set![HEALTH_PATH@]
    &&& router_mounts(router) == map![ASSETS_PREFIX@ => dir]
    &&& router_cors(router).len() == 1
    &&& cors_allowed_origins(app_cors(router)) == seq![ALLOWED_ORIGIN.spec_bytes()]
    &&& cors_allowed_methods(app_cors(router)) == seq!["GET"@, "POST"@]
    &&& cors_allows_any_header(app_cors(router))
    &&& !cors_allows_credentials(app_cors(router))
}

/// The cross-origin layer of the application's router.
pub open spec fn app_cors(router: Router) -> CorsLayer {
    router_cors(router)[0]
}

/// The health handler answers on the health path and on no other.
pub proof fn health_is_answered_on_its_path_only(router: Router, dir: Seq<char>, path: Seq<char>)
    requires
        is_app(router, dir),
    ensures
        router_health_routes(router).contains(path) <==> path == HEALTH_PATH@,
{
}

/// Files are served under the assets prefix and under no other, and they
/// are read from the application's directory.
pub proof fn files_are_served_under_the_prefix_only(
    router: Router,
    dir: Seq<char>,
    prefix: Seq<char>,
)
    requires
        is_app(router, dir),
    ensures
        router_mounts(router).dom().contains(prefix) <==> prefix == ASSETS_PREFIX@,
        router_mounts(router)[ASSETS_PREFIX@] == dir,
{
}

/// The layer of the application lists an origin exactly when it is the
/// allowed origin: no other origin is answered with a permission, whatever
/// its bytes.
pub proof fn only_the_allowed_origin_is_listed(router: Router, dir: Seq<char>, origin: Seq<u8>)
    requires
        is_app(router, dir),
    ensures
        cors_allowed_origins(app_cors(router)).contains(origin) <==> origin
            == ALLOWED_ORIGIN.spec_bytes(),
{
    let listed = cors_allowed_origins(app_cors(router));
    assert(listed[0] == ALLOWED_ORIGIN.spec_bytes());
}

/// The layer of the application lists a method exactly when it is `GET` or
/// `POST`.
pub proof fn only_get_and_post_are_listed(router: Router, dir: Seq<char>, method: Seq<char>)
    requires
        is_app(router, dir),
    ensures
        cors_allowed_methods(app_cors(router)).contains(method) <==> (method == "GET"@ || method
            == "POST"@),
{
    let listed = cors_allowed_methods(app_cors(router));
    assert(listed[0] == "GET"@ && listed[1] == "POST"@);
}

/// The health path is plain, the assets prefix can be mounted, and the
/// health path is neither the prefix nor the prefix with a slash.
proof fn lemma_paths_do_not_overlap()
    ensures
        is_plain_path(HEALTH_PATH@),
        is_mount_prefix(ASSETS_PREFIX@),
        HEALTH_PATH@ != ASSETS_PREFIX@,
        HEALTH_PATH@ != ASSETS_PREFIX@.push('/'),
{
    reveal_strlit("/api/health");
    reveal_strlit("/assets");
    assert(HEALTH_PATH@.len() == 11 && ASSETS_PREFIX@.len() == 7);
    assert(HEALTH_PATH@[1] == 'a' && HEALTH_PATH@[2] == 'p');
    assert(ASSETS_PREFIX@.push('/')[2] == 's');
}

/// Builds the application with files served from `assets_dir`.
pub fn app_with_assets(assets_dir: &str) -> (router: Router)
    ensures
        is_app(router, assets_dir@),
{
    proof {
        lemma_paths_do_not_overlap();
    }
    let router = new_router();
    let router = route_health(router, HEALTH_PATH);
    let router = mount_dir(router, ASSETS_PREFIX, assets_dir);
    let layer = cors();
    let router = layer_cors(router, layer);
    assert(router_cors(router)[0] == layer);
    router
}

/// Builds the application as the server runs it, with files served from
/// the assets directory.
pub fn app() -> (router: Router)
    ensures
        is_app(router, ASSETS_DIR@),
{
    app_with_assets(ASSETS_DIR)
}

} // verus!
