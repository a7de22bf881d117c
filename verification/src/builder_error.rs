//! The failures a client build can end in.

use vstd::prelude::*;
use vstd::string::StringExecFns;

verus! {

/// Why building a client failed: the derived authorization header value was
/// not legal header content, or the HTTP client could not be instantiated.
#[derive(Debug)]
pub enum BuilderError {
    /// The authorization header value held a byte illegal in an HTTP header.
    InvalidHeader(reqwest::header::InvalidHeaderValue),
    /// The underlying HTTP client could not be constructed.
    ClientError(reqwest::Error),
}

impl BuilderError {
    /// A human-readable description of the failure.
    pub fn describe(&self) -> (r: String)
        ensures
            self is InvalidHeader ==> exists|t: Seq<char>|
                r@ == "An invalid header was provided: "@ + t,
            self is ClientError ==> exists|t: Seq<char>|
                r@ == "Failed to construct the HTTP client: "@ + t,
    {
        match self {
            BuilderError::InvalidHeader(e) => {
                let mut s = String::from_str("An invalid header was provided: ");
                let detail = e.to_string();
                s.append(detail.as_str());
                proof {
                    assert(s@ == "An invalid header was provided: "@ + detail@);
                }
                s
            },
            BuilderError::ClientError(e) => {
                let mut s = String::from_str("Failed to construct the HTTP client: ");
                let detail = e.to_string();
                s.append(detail.as_str());
                proof {
                    assert(s@ == "Failed to construct the HTTP client: "@ + detail@);
                }
                s
            },
        }
    }
}

impl From<reqwest::header::InvalidHeaderValue> for BuilderError {
    /// Wraps a header-construction failure.
    fn from(value: reqwest::header::InvalidHeaderValue) -> (r: Self) {
        BuilderError::InvalidHeader(value)
    }
}

impl vstd::std_specs::convert::FromSpecImpl<reqwest::header::InvalidHeaderValue> for BuilderError {
    open spec fn obeys_from_spec() -> bool {
        true
    }

    open spec fn from_spec(v: reqwest::header::InvalidHeaderValue) -> Self {
        BuilderError::InvalidHeader(v)
    }
}

impl From<reqwest::Error> for BuilderError {
    /// Wraps a transport-construction failure.
    fn from(value: reqwest::Error) -> (r: Self) {
        BuilderError::ClientError(value)
    }
}

impl vstd::std_specs::convert::FromSpecImpl<reqwest::Error> for BuilderError {
    open spec fn obeys_from_spec() -> bool {
        true
    }

    open spec fn from_spec(v: reqwest::Error) -> Self {
        BuilderError::ClientError(v)
    }
}

} // verus!
