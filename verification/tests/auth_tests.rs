//! The credential is carried as `Basic <base64(key)>` and can be recovered
//! from the header value.

use waka::auth::recover_api_key;
use waka::WakaTimeClientBuilder;

#[test]
fn header_is_basic_base64_of_key() {
    let builder = WakaTimeClientBuilder::new_with_api_key("test");
    assert_eq!(builder.authorization_header(), "Basic dGVzdA==");
}

#[test]
fn header_of_longer_key() {
    let builder = WakaTimeClientBuilder::new_with_api_key("waka_abcd-1234");
    assert_eq!(builder.authorization_header(), "Basic d2FrYV9hYmNkLTEyMzQ=");
}

#[test]
fn header_round_trips_to_key_bytes() {
    let builder = WakaTimeClientBuilder::new_with_api_key("test");
    let header = builder.authorization_header();
    let recovered = recover_api_key(header.as_str());
    assert_eq!(recovered, Some(b"test".to_vec()));
}

#[test]
fn header_round_trips_for_empty_key() {
    let builder = WakaTimeClientBuilder::new_with_api_key("");
    let header = builder.authorization_header();
    assert_eq!(header, "Basic ");
    let recovered = recover_api_key(header.as_str());
    assert_eq!(recovered, Some(Vec::new()));
}

#[test]
fn recover_rejects_header_without_prefix() {
    assert_eq!(recover_api_key("Bearer dGVzdA=="), None);
    assert_eq!(recover_api_key(""), None);
}

#[test]
fn with_user_keeps_the_encoded_key() {
    let builder = WakaTimeClientBuilder::new_with_api_key("test").with_user("alice");
    assert_eq!(builder.authorization_header(), "Basic dGVzdA==");
}
