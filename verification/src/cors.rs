//! The cross-origin policy: one allowed origin, two allowed methods, any
//! request header.

use crate::header::{header_value_bytes, is_header_value, method_get, method_name, method_post};
use axum::http::HeaderValue;
use axum::http::Method;
use tower_http::cors::CorsLayer;
use vstd::prelude::*;
use vstd::string::StringSliceAdditionalSpecFns;

verus! {

/// The one origin whose cross-origin requests are answered.
pub const ALLOWED_ORIGIN: &'static str = "http://localhost:3000";

/// `tower_http::cors::CorsLayer`, carried through as an opaque value.
#[verifier::external_type_specification]
#[verifier::external_body]
pub struct ExCorsLayer(CorsLayer);

/// The origins that a layer lists, each as the bytes of its header value. A
/// request whose `Origin` is one of them gets it back as
/// `Access-Control-Allow-Origin`; no other request gets that header.
pub uninterp spec fn cors_allowed_origins(layer: CorsLayer) -> Seq<Seq<u8>>;

/// The names of the methods that a layer lists, in the order in which a
/// preflight response gives them as `Access-Control-Allow-Methods`.
pub uninterp spec fn cors_allowed_methods(layer: CorsLayer) -> Seq<Seq<char>>;

/// Whether a layer answers a preflight request with the wildcard as
/// `Access-Control-Allow-Headers`.
pub uninterp spec fn cors_allows_any_header(layer: CorsLayer) -> bool;

/// Whether a layer sends `Access-Control-Allow-Credentials: true`.
pub uninterp spec fn cors_allows_credentials(layer: CorsLayer) -> bool;

/// The bytes of the wildcard origin, a single `*`.
pub open spec fn wildcard() -> Seq<u8> {
    seq![42u8]
}

/// The bytes of each header value of a list.
pub open spec fn bytes_of_each(values: Seq<HeaderValue>) -> Seq<Seq<u8>> {
    Seq::new(values.len(), |i: int| header_value_bytes(values[i]))
}

/// The name of each method of a list.
pub open spec fn name_of_each(methods: Seq<Method>) -> Seq<Seq<char>> {
    Seq::new(methods.len(), |i: int| method_name(methods[i]))
}

/// `CorsLayer::new` gives a layer that lists nothing and sends no header.
pub assume_specification[ CorsLayer::new ]() -> (layer: CorsLayer)
    ensures
        cors_allowed_origins(layer) == Seq::<Seq<u8>>::empty(),
        cors_allowed_methods(layer) == Seq::<Seq<char>>::empty(),
        !cors_allows_any_header(layer),
        !cors_allows_credentials(layer),
;

/// `CorsLayer::allow_origin` with a list of origins: the layer then lists
/// exactly these, and nothing else of it changes. The outside function
/// refuses a list that holds the wildcard.
#[verifier::external_body]
fn allow_origins(layer: CorsLayer, origins: Vec<HeaderValue>) -> (out: CorsLayer)
    requires
        !bytes_of_each(origins@).contains(wildcard()),
    ensures
        cors_allowed_origins(out) == bytes_of_each(origins@),
        cors_allowed_methods(out) == cors_allowed_methods(layer),
        cors_allows_any_header(out) == cors_allows_any_header(layer),
        cors_allows_credentials(out) == cors_allows_credentials(layer),
{
    layer.allow_origin(origins)
}

/// `CorsLayer::allow_methods` with a list of methods: the layer then lists
/// exactly these, and nothing else of it changes.
#[verifier::external_body]
fn allow_methods(layer: CorsLayer, methods: Vec<Method>) -> (out: CorsLayer)
    ensures
        cors_allowed_origins(out) == cors_allowed_origins(layer),
        cors_allowed_methods(out) == name_of_each(methods@),
        cors_allows_any_header(out) == cors_allows_any_header(layer),
        cors_allows_credentials(out) == cors_allows_credentials(layer),
{
    layer.allow_methods(methods)
}

/// `CorsLayer::allow_headers` with `Any`: the layer then allows every
/// request header, and nothing else of it changes.
#[verifier::external_body]
fn allow_any_header(layer: CorsLayer) -> (out: CorsLayer)
    ensures
        cors_allowed_origins(out) == cors_allowed_origins(layer),
        cors_allowed_methods(out) == cors_allowed_methods(layer),
        cors_allows_any_header(out),
        cors_allows_credentials(out) == cors_allows_credentials(layer),
{
    layer.allow_headers(tower_http::cors::Any)
}

/// The allowed origin is plain ASCII, so its bytes are its characters: each
/// of them may occur in a header value, and together they are not the
/// wildcard.
proof fn lemma_allowed_origin_is_header_value()
    ensures
        is_header_value(ALLOWED_ORIGIN.spec_bytes()),
        ALLOWED_ORIGIN.spec_bytes() != wildcard(),
{
    reveal_strlit("http://localhost:3000");
    assert(ALLOWED_ORIGIN.is_ascii());
    vstd::string::is_ascii_spec_bytes(ALLOWED_ORIGIN);
    assert(ALLOWED_ORIGIN.spec_bytes().len() == 21);
}

/// Builds the cross-origin layer of the server: it lists the one allowed
/// origin and the methods `GET` and `POST`, allows every request header and
/// sends no credentials header.
pub fn cors() -> (layer: CorsLayer)
    ensures
        cors_allowed_origins(layer) == seq![ALLOWED_ORIGIN.spec_bytes()],
        cors_allowed_methods(layer) == seq!["GET"@, "POST"@],
        cors_allows_any_header(layer),
        !cors_allows_credentials(layer),
{
    proof {
        lemma_allowed_origin_is_header_value();
    }
    let mut origins: Vec<HeaderValue> = Vec::new();
    match HeaderValue::from_str(ALLOWED_ORIGIN) {
        Ok(origin) => origins.push(origin),
        Err(_) => {},
    }
    let mut methods: Vec<Method> = Vec::new();
    methods.push(method_get());
    methods.push(method_post());
    assert(bytes_of_each(origins@) == seq![ALLOWED_ORIGIN.spec_bytes()]);
    assert(name_of_each(methods@) == seq!["GET"@, "POST"@]);
    let layer = CorsLayer::new();
    let layer = allow_origins(layer, origins);
    let layer = allow_methods(layer, methods);
    allow_any_header(layer)
}

} // verus!
