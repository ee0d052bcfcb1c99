//! Header values and request methods of the `http` crate, as far as the
//! cross-origin policy needs them.

use axum::http::header::InvalidHeaderValue;
use axum::http::HeaderValue;
use axum::http::Method;
use vstd::prelude::*;
use vstd::string::StringSliceAdditionalSpecFns;

verus! {

/// `http::HeaderValue`, carried through as an opaque value.
#[verifier::external_type_specification]
#[verifier::external_body]
pub struct ExHeaderValue(HeaderValue);

/// `http::header::InvalidHeaderValue`, the error of a refused header value.
#[verifier::external_type_specification]
#[verifier::external_body]
pub struct ExInvalidHeaderValue(InvalidHeaderValue);

/// `http::Method`, carried through as an opaque value.
#[verifier::external_type_specification]
#[verifier::external_body]
pub struct ExMethod(Method);

/// The bytes that a header value holds (`HeaderValue::as_bytes`).
pub uninterp spec fn header_value_bytes(value: HeaderValue) -> Seq<u8>;

/// The name of a request method (`Method::as_str`).
pub uninterp spec fn method_name(method: Method) -> Seq<char>;

/// Whether a byte may occur in a header value: a horizontal tab, or anything
/// from the space upwards except the delete character.
pub open spec fn is_header_value_byte(b: u8) -> bool {
    (b >= 32 && b != 127) || b == 9
}

/// Whether every byte of `bytes` may occur in a header value.
pub open spec fn is_header_value(bytes: Seq<u8>) -> bool {
    forall|i: int| 0 <= i < bytes.len() ==> is_header_value_byte(#[trigger] bytes[i])
}

/// `HeaderValue::from_str` accepts a string exactly when each of its bytes
/// may occur in a header value, and the value then holds the string's bytes.
pub assume_specification[ HeaderValue::from_str ](src: &str) -> (r: Result<
    HeaderValue,
    InvalidHeaderValue,
>)
    ensures
        r is Ok <==> is_header_value(src.spec_bytes()),
        r matches Ok(value) ==> header_value_bytes(value) == src.spec_bytes(),
;

/// The constant `Method::GET`, whose name is `GET`.
#[verifier::external_body]
pub(crate) fn method_get() -> (method: Method)
    ensures
        method_name(method) == "GET"@,
{
    Method::GET
}

/// The constant `Method::POST`, whose name is `POST`.
#[verifier::external_body]
pub(crate) fn method_post() -> (method: Method)
    ensures
        method_name(method) == "POST"@,
{
    Method::POST
}

} // verus!
