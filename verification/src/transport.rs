//! The HTTP transport a configured client owns, and its construction out of
//! an authorization header value.

use vstd::prelude::*;
use vstd::string::StringSliceAdditionalSpecFns;
use vstd::utf8::encode_utf8;

verus! {

#[verifier::external_type_specification]
#[verifier::external_body]
pub struct ExClient(reqwest::Client);

#[verifier::external_type_specification]
#[verifier::external_body]
pub struct ExError(reqwest::Error);

#[verifier::external_type_specification]
#[verifier::external_body]
pub struct ExHeaderValue(reqwest::header::HeaderValue);

#[verifier::external_type_specification]
#[verifier::external_body]
pub struct ExInvalidHeaderValue(reqwest::header::InvalidHeaderValue);

/// A byte legal in an HTTP header value: 32 to 255 excluding DEL, or tab.
pub open spec fn is_valid_header_byte(b: u8) -> bool {
    b >= 32 && b != 127 || b == 9
}

/// A string whose UTF-8 bytes are all legal in an HTTP header value.
pub open spec fn is_valid_header_value(s: Seq<char>) -> bool {
    forall|i: int|
        0 <= i < encode_utf8(s).len() ==> is_valid_header_byte(#[trigger] encode_utf8(s)[i])
}

/// Relies on `HeaderValue::from_str` (reqwest re-exports http's header
/// types): it succeeds exactly when every byte of the string is legal in a
/// header value.
#[verifier::external_body]
pub(crate) fn make_header_value(s: &str) -> (r: Result<
    reqwest::header::HeaderValue,
    reqwest::header::InvalidHeaderValue,
>)
    ensures
        r is Ok <==> is_valid_header_value(s@),
{
    reqwest::header::HeaderValue::from_str(s)
}

/// Relies on reqwest's `ClientBuilder`: builds a client that attaches `auth`
/// as the `authorization` header of every request it sends. Local
/// construction can fail, so nothing is promised of the outcome.
#[verifier::external_body]
pub(crate) fn build_transport(auth: reqwest::header::HeaderValue) -> (r: Result<
    reqwest::Client,
    reqwest::Error,
>) {
    let mut headers = reqwest::header::HeaderMap::new();
    headers.insert("authorization", auth);
    reqwest::ClientBuilder::new().default_headers(headers).build()
}

} // verus!
