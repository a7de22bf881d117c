//! The typed failures an endpoint call can end in.

use vstd::prelude::*;
use vstd::string::StringExecFns;

use crate::text::{append_u32_decimal, decimal_str};
use crate::ErrorsResponse;

verus! {

/// Why an endpoint call failed. Exactly one of these — or the success
/// payload — comes out of every call.
#[derive(Debug)]
pub enum ApiError {
    /// A status other than 200 and 401, carrying that exact status code and
    /// the error list parsed from the body, when there was one.
    Unspecified(u16, Option<ErrorsResponse>),
    /// A 200 response whose body did not match the expected success shape;
    /// carries the underlying parse failure.
    InvalidFormat(reqwest::Error),
    /// A 401 response, with the error list parsed from the body, when there
    /// was one.
    Unauthorized(Option<ErrorsResponse>),
    /// A transport-level failure below HTTP: the call itself did not
    /// complete.
    ServerError(reqwest::Error),
}

impl ApiError {
    /// A human-readable description of the failure.
    pub fn describe(&self) -> (r: String)
        ensures
            self matches ApiError::Unspecified(code, _) ==> r@
                == "An unspecified error occurred: "@ + decimal_str(code as nat),
            self is Unauthorized ==> r@ == "Authorization failed"@,
            self is ServerError ==> exists|t: Seq<char>| r@ == "The call failed: "@ + t,
            self is InvalidFormat ==> exists|t: Seq<char>|
                r@ == "The API returned an unexpected format: "@ + t,
    {
        match self {
            ApiError::Unspecified(code, _) => {
                let mut s = String::from_str("An unspecified error occurred: ");
                append_u32_decimal(&mut s, *code as u32);
                s
            },
            ApiError::Unauthorized(_) => String::from_str("Authorization failed"),
            ApiError::ServerError(e) => {
                let mut s = String::from_str("The call failed: ");
                let detail = e.to_string();
                s.append(detail.as_str());
                proof {
                    assert(s@ == "The call failed: "@ + detail@);
                }
                s
            },
            ApiError::InvalidFormat(e) => {
                let mut s = String::from_str("The API returned an unexpected format: ");
                let detail = e.to_string();
                s.append(detail.as_str());
                proof {
                    assert(s@ == "The API returned an unexpected format: "@ + detail@);
                }
                s
            },
        }
    }
}

impl From<reqwest::Error> for ApiError {
    /// Wraps a transport-level failure.
    fn from(value: reqwest::Error) -> (r: Self) {
        ApiError::ServerError(value)
    }
}

impl vstd::std_specs::convert::FromSpecImpl<reqwest::Error> for ApiError {
    open spec fn obeys_from_spec() -> bool {
        true
    }

    open spec fn from_spec(v: reqwest::Error) -> Self {
        ApiError::ServerError(v)
    }
}

} // verus!
