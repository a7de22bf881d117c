//! Building a client: the header is derived once, construction does no
//! network traffic, and failures are typed.

use waka::{BuilderError, WakaTimeClientBuilder};

#[test]
fn building_with_a_plain_key_succeeds() {
    let built = WakaTimeClientBuilder::new_with_api_key("test").build();
    assert!(built.is_ok());
}

#[test]
fn built_client_keeps_the_chosen_user() {
    let client = WakaTimeClientBuilder::new_with_api_key("test")
        .with_user("alice")
        .build()
        .unwrap();
    assert_eq!(client.user(), "alice");
}

#[test]
fn unusual_credentials_still_build() {
    // The key is base64-encoded before it reaches the header, so even bytes
    // illegal in a header survive the trip.
    let built = WakaTimeClientBuilder::new_with_api_key("line\nbreak\x7f").build();
    assert!(built.is_ok());
}

#[test]
fn builder_error_from_transport_error() {
    let e = reqwest::Client::new()
        .get("not an absolute url")
        .build()
        .unwrap_err();
    let wrapped = BuilderError::from(e);
    assert!(matches!(wrapped, BuilderError::ClientError(_)));
    assert!(wrapped
        .describe()
        .starts_with("Failed to construct the HTTP client: "));
}
