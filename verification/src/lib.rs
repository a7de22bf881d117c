//! A typed client library for the WakaTime REST API.
//!
//! A builder turns an API key — and an optional target user — into an
//! immutable, reusable client. The client assembles one GET request per
//! endpoint (account-lifetime totals, per-commit statistics, periodic
//! summaries), authenticates with a `Basic <base64(key)>` header, and
//! classifies every response by status code into exactly one typed success
//! payload or one typed error.

use vstd::prelude::*;
use vstd::string::{StringExecFns, StringSliceAdditionalSpecFns};

mod api_error;
mod builder_error;
pub mod auth;
pub mod model;
pub mod query;
pub mod text;
pub mod transport;

pub use crate::api_error::ApiError;
pub use crate::builder_error::BuilderError;
pub use crate::query::{AllTimesSinceTodayOptions, CommitOptions, SummariesOptions};

use crate::auth::{base64_of, encode_base64};
use crate::query::{
    all_times_pairs, commit_pairs, query_string, render_query, summaries_pairs,
    summaries_pairs_exec, pairs_view,
};
use crate::transport::{build_transport, is_valid_header_value, make_header_value};

verus! {

/// The fixed base of every endpoint URL.
pub open spec fn base_url() -> Seq<char> {
    "https://wakatime.com/api/v1/"@
}

fn base_url_str() -> (r: &'static str)
    ensures
        r@ == base_url(),
{
    "https://wakatime.com/api/v1/"
}

/// The sentinel user identifier meaning "the authenticated account".
pub open spec fn current_user() -> Seq<char> {
    "current"@
}

/// A builder for [`WakaTimeClient`] instances.
pub struct WakaTimeClientBuilder {
    /// The API key, base64-encoded.
    api_key_base64: String,
    /// The optional user to use.
    user: Option<String>,
}

impl WakaTimeClientBuilder {
    /// The base64-encoded form of the credential this builder holds.
    pub closed spec fn spec_api_key_base64(&self) -> Seq<char> {
        self.api_key_base64@
    }

    /// The explicitly chosen target user, when one was set.
    pub closed spec fn spec_user(&self) -> Option<Seq<char>> {
        match self.user {
            Option::Some(u) => Option::Some(u@),
            Option::None => Option::None,
        }
    }

    /// Starts a builder from a raw API key. Only the base64 encoding of the
    /// key is retained.
    pub fn new_with_api_key(api_key: &str) -> (r: Self)
        ensures
            r.spec_api_key_base64() == base64_of(api_key.spec_bytes()),
            r.spec_user() is None,
    {
        WakaTimeClientBuilder { api_key_base64: encode_base64(api_key.as_bytes()), user: None }
    }

    /// Specifies a user to focus on. If unspecified, `current` is used.
    pub fn with_user(self, user: &str) -> (r: Self)
        ensures
            r.spec_api_key_base64() == self.spec_api_key_base64(),
            r.spec_user() == Option::Some(user@),
    {
        WakaTimeClientBuilder { api_key_base64: self.api_key_base64, user: Some(user.to_owned()) }
    }

    /// The authorization header value this builder derives from its
    /// credential.
    pub fn authorization_header(&self) -> (r: String)
        ensures
            r@ == "Basic "@ + self.spec_api_key_base64(),
    {
        let mut s = String::from_str("Basic ");
        s.append(self.api_key_base64.as_str());
        s
    }

    /// Builds the immutable client, or reports why it cannot be built: an
    /// authorization header with illegal content, or a transport that could
    /// not be instantiated. Performs no network traffic.
    pub fn build(self) -> (r: Result<WakaTimeClient, BuilderError>)
        ensures
            (r matches Err(BuilderError::InvalidHeader(_))) <==> !is_valid_header_value(
                "Basic "@ + self.spec_api_key_base64(),
            ),
            r matches Ok(c) ==> c.spec_user() == (match self.spec_user() {
                Option::Some(u) => u,
                Option::None => current_user(),
            }),
    {
        let authorize = self.authorization_header();
        match make_header_value(authorize.as_str()) {
            Err(e) => Err(BuilderError::InvalidHeader(e)),
            Ok(hv) => match build_transport(hv) {
                Err(e) => Err(BuilderError::ClientError(e)),
                Ok(client) => Ok(
                    WakaTimeClient {
                        client,
                        user: match self.user {
                            Some(u) => u,
                            None => String::from_str("current"),
                        },
                    },
                ),
            },
        }
    }
}

/// A client for accessing the WakaTime API: owns the transport — with the
/// authentication header baked in — and the target-user identifier. It is
/// immutable after construction and can be shared across concurrent calls.
pub struct WakaTimeClient {
    /// The HTTP client to use.
    client: reqwest::Client,
    /// The user to use.
    user: String,
}

impl WakaTimeClient {
    /// The target-user identifier every endpoint URL embeds.
    pub closed spec fn spec_user(&self) -> Seq<char> {
        self.user@
    }

    /// The transport this client owns.
    pub closed spec fn spec_transport(&self) -> reqwest::Client {
        self.client
    }

    /// The target-user identifier.
    pub fn user(&self) -> (r: &str)
        ensures
            r@ == self.spec_user(),
    {
        self.user.as_str()
    }

    /// The underlying HTTP transport, for issuing the request.
    pub fn transport(&self) -> (r: &reqwest::Client)
        ensures
            *r == self.spec_transport(),
    {
        &self.client
    }

    /// The URL of the account-lifetime-totals endpoint for this client and
    /// these options.
    pub fn all_time_since_today_url(&self, options: AllTimesSinceTodayOptions) -> (r: String)
        ensures
            r@ == base_url() + "users/"@ + self.spec_user() + "/all_time_since_today"@
                + query_string(all_times_pairs(options)),
    {
        let qs = options.into_query_string();
        let mut url = String::from_str(base_url_str());
        url.append("users/");
        url.append(self.user.as_str());
        url.append("/all_time_since_today");
        url.append(qs.as_str());
        url
    }

    /// The URL of the commit-detail endpoint for this client, project,
    /// commit hash and options. The project and hash are inserted verbatim,
    /// not escaped: callers supply path-safe values.
    pub fn commit_url(&self, project: &str, hash: &str, options: CommitOptions) -> (r: String)
        ensures
            r@ == base_url() + "users/"@ + self.spec_user() + "/projects/"@ + project@
                + "/commits/"@ + hash@ + query_string(commit_pairs(options)),
    {
        let qs = options.into_query_string();
        let mut url = String::from_str(base_url_str());
        url.append("users/");
        url.append(self.user.as_str());
        url.append("/projects/");
        url.append(project);
        url.append("/commits/");
        url.append(hash);
        url.append(qs.as_str());
        url
    }

    /// The URL of the periodic-summary endpoint for this client, date range
    /// and options. The required start and end dates are always included,
    /// after the optional pairs.
    pub fn summaries_url(&self, start: &str, end: &str, options: SummariesOptions) -> (r: String)
        ensures
            r@ == base_url() + "users/"@ + self.spec_user() + "/summaries"@ + query_string(
                summaries_pairs(options) + seq![("start"@, start@), ("end"@, end@)],
            ),
    {
        let mut pairs = summaries_pairs_exec(&options);
        pairs.push((String::from_str("start"), start.to_owned()));
        pairs.push((String::from_str("end"), end.to_owned()));
        proof {
            assert(pairs_view(pairs@) =~~= summaries_pairs(options) + seq![
                ("start"@, start@),
                ("end"@, end@),
            ]);
        }
        let qs = render_query(&pairs);
        let mut url = String::from_str(base_url_str());
        url.append("users/");
        url.append(self.user.as_str());
        url.append("/summaries");
        url.append(qs.as_str());
        url
    }

    /// Classifies one completed exchange: a 200 response yields the parsed
    /// payload, or `InvalidFormat` when the body did not parse; a 401 yields
    /// `Unauthorized` with whatever error list the body held; any other
    /// status yields `Unspecified` with that exact status code. Exactly one
    /// outcome comes out. The payload parse is attempted exactly on 200
    /// responses, so a parse outcome is handed in if and only if the status
    /// is 200.
    pub fn classify_response<T>(
        status: u16,
        payload: Option<Result<T, reqwest::Error>>,
        errors: Option<ErrorsResponse>,
    ) -> (r: Result<T, ApiError>)
        requires
            (payload is Some) <==> status == 200,
        ensures
            status == 200 && payload->0 is Ok ==> r is Ok && r->Ok_0 == payload->0->Ok_0,
            status == 200 && payload->0 is Err ==> r == Result::<T, ApiError>::Err(
                ApiError::InvalidFormat(payload->0->Err_0),
            ),
            status == 401 ==> r == Result::<T, ApiError>::Err(ApiError::Unauthorized(errors)),
            status != 200 && status != 401 ==> r == Result::<T, ApiError>::Err(
                ApiError::Unspecified(status, errors),
            ),
    {
        match payload {
            Option::Some(parsed) => match parsed {
                Ok(value) => Ok(value),
                Err(e) => Err(ApiError::InvalidFormat(e)),
            },
            Option::None => {
                if status == 401 {
                    Err(ApiError::Unauthorized(errors))
                } else {
                    Err(ApiError::Unspecified(status, errors))
                }
            },
        }
    }

    /// Classifies one completed exchange whose 200 body is wrapped in the
    /// `{"data": <payload>}` envelope: on success the envelope is stripped
    /// and the payload alone is returned. The envelope is a quirk of exactly
    /// one endpoint. Status handling is as in [`Self::classify_response`].
    pub fn classify_response_enveloped<T>(
        status: u16,
        payload: Option<Result<DataWrapper<T>, reqwest::Error>>,
        errors: Option<ErrorsResponse>,
    ) -> (r: Result<T, ApiError>)
        requires
            (payload is Some) <==> status == 200,
        ensures
            status == 200 && payload->0 is Ok ==> r is Ok && r->Ok_0 == payload->0->Ok_0.data,
            status == 200 && payload->0 is Err ==> r == Result::<T, ApiError>::Err(
                ApiError::InvalidFormat(payload->0->Err_0),
            ),
            status == 401 ==> r == Result::<T, ApiError>::Err(ApiError::Unauthorized(errors)),
            status != 200 && status != 401 ==> r == Result::<T, ApiError>::Err(
                ApiError::Unspecified(status, errors),
            ),
    {
        match payload {
            Option::Some(parsed) => match parsed {
                Ok(wrapper) => Ok(wrapper.data),
                Err(e) => Err(ApiError::InvalidFormat(e)),
            },
            Option::None => {
                if status == 401 {
                    Err(ApiError::Unauthorized(errors))
                } else {
                    Err(ApiError::Unspecified(status, errors))
                }
            },
        }
    }
}

/// The error-list payload the service returns alongside non-success
/// statuses.
#[derive(Debug, Clone)]
pub struct ErrorsResponse {
    /// Human-readable error messages.
    pub errors: Vec<String>,
}

/// The envelope wrapper — `{"data": <payload>}` — used by exactly one
/// endpoint.
#[derive(Debug, Clone)]
pub struct DataWrapper<T> {
    /// The wrapped payload.
    pub data: T,
}

} // verus!
