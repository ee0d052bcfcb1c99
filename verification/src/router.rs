//! The request router of `axum`: its type, what it holds, and the calls
//! that fill it.

use crate::cors::cors_allows_credentials;
use crate::health::health_check;
use axum::Router;
use tower_http::cors::CorsLayer;
use vstd::prelude::*;

verus! {

/// `axum::Router`, carried through as an opaque value.
#[verifier::external_type_specification]
#[verifier::external_body]
#[verifier::reject_recursive_types(S)]
pub struct ExRouter<S>(Router<S>);

/// The paths on which a router answers `GET` with what the health handler
/// returns, as the body of a response of status 200.
pub uninterp spec fn router_health_routes(router: Router) -> Set<Seq<char>>;

/// The directories that a router serves: each path prefix under which files
/// are served, with the directory that they are read from.
pub uninterp spec fn router_mounts(router: Router) -> Map<Seq<char>, Seq<char>>;

/// The cross-origin layers that wrap everything a router answers, the
/// innermost first.
pub uninterp spec fn router_cors(router: Router) -> Seq<CorsLayer>;

/// Whether a path can be registered as it stands: it starts with a slash and
/// holds none of the characters that the router reads as a capture or a
/// wildcard.
pub open spec fn is_plain_path(path: Seq<char>) -> bool {
    &&& path.len() > 0
    &&& path[0] == '/'
    &&& forall|i: int|
        0 <= i < path.len() ==> {
            let c = #[trigger] path[i];
            c != '{' && c != '}' && c != ':' && c != '*'
        }
}

/// Whether a path can serve as the prefix of a served directory: a plain
/// path other than the root, without a slash at its end.
pub open spec fn is_mount_prefix(prefix: Seq<char>) -> bool {
    &&& is_plain_path(prefix)
    &&& prefix.len() > 1
    &&& prefix.last() != '/'
}

/// The empty set of routes.
pub open spec fn no_routes() -> Set<Seq<char>> {
    Set::empty()
}

/// The empty map of served directories.
pub open spec fn no_mounts() -> Map<Seq<char>, Seq<char>> {
    Map::empty()
}

/// The empty sequence of layers.
pub open spec fn no_layers() -> Seq<CorsLayer> {
    Seq::empty()
}

/// `Router::new` gives a router that holds no route, no directory and no
/// layer.
#[verifier::external_body]
pub(crate) fn new_router() -> (router: Router)
    ensures
        router_health_routes(router) == no_routes(),
        router_mounts(router) == no_mounts(),
        router_cors(router) == no_layers(),
{
    Router::new()
}

/// `Router::route` with a `GET` route to the health handler. The outside
/// function refuses a path that is not plain or that is registered already;
/// here it is called before any directory or layer is added.
#[verifier::external_body]
pub(crate) fn route_health(router: Router, path: &str) -> (out: Router)
    requires
        is_plain_path(path@),
        !router_health_routes(router).contains(path@),
        router_mounts(router) == no_mounts(),
        router_cors(router) == no_layers(),
    ensures
        router_health_routes(out) == router_health_routes(router).insert(path@),
        router_mounts(out) == router_mounts(router),
        router_cors(out) == router_cors(router),
{
    router.route(path, axum::routing::get(|| std::future::ready(health_check())))
}

/// `Router::nest_service` with a `ServeDir` over `dir`: files of `dir` are
/// then served under `prefix`. The outside function registers the prefix
/// with and without a slash at its end, and refuses a prefix that is not
/// plain, is the root, or is registered already; here it is called on a
/// router without directories or layers.
#[verifier::external_body]
pub(crate) fn mount_dir(router: Router, prefix: &str, dir: &str) -> (out: Router)
    requires
        is_mount_prefix(prefix@),
        !router_health_routes(router).contains(prefix@),
        !router_health_routes(router).contains(prefix@.push('/')),
        router_mounts(router) == no_mounts(),
        router_cors(router) == no_layers(),
    ensures
        router_health_routes(out) == router_health_routes(router),
        router_mounts(out) == router_mounts(router).insert(prefix@, dir@),
        router_cors(out) == router_cors(router),
{
    router.nest_service(prefix, tower_http::services::ServeDir::new(dir))
}

/// `Router::layer` with a cross-origin layer: it wraps every route and
/// directory of the router, and the answer to a request that matches none.
/// The outside function refuses a layer that sends credentials together
/// with a wildcard.
#[verifier::external_body]
pub(crate) fn layer_cors(router: Router, layer: CorsLayer) -> (out: Router)
    requires
        !cors_allows_credentials(layer),
    ensures
        router_health_routes(out) == router_health_routes(router),
        router_mounts(out) == router_mounts(router),
        router_cors(out) == router_cors(router).push(layer),
{
    router.layer(layer)
}

} // verus!
