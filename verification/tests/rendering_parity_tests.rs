//! The crate renders query strings itself, with a verified renderer. These
//! tests pin that renderer against the query-string-builder crate, whose
//! output format (leading `?`, `&`-joined pairs, percent-encoded values) it
//! reproduces.

use query_string_builder::QueryString;
use waka::{AllTimesSinceTodayOptions, SummariesOptions};

#[test]
fn empty_bundle_matches_builder_crate() {
    let qs = QueryString::new();
    assert_eq!(
        AllTimesSinceTodayOptions::default().into_query_string(),
        format!("{qs}")
    );
}

#[test]
fn plain_value_matches_builder_crate() {
    let qs = QueryString::new().with("project", "wakadump");
    let options = AllTimesSinceTodayOptions { project: Some("wakadump".to_string()) };
    assert_eq!(options.into_query_string(), format!("{qs}"));
}

#[test]
fn encoded_value_matches_builder_crate() {
    let qs = QueryString::new().with("project", "Grünkohl & more?");
    let options = AllTimesSinceTodayOptions { project: Some("Grünkohl & more?".to_string()) };
    assert_eq!(options.into_query_string(), format!("{qs}"));
}

#[test]
fn full_bundle_matches_builder_crate() {
    let timeout = 15u32;
    let writes_only = false;
    let qs = QueryString::new()
        .with("project", "a b")
        .with("branches", "main")
        .with("timeout", &timeout)
        .with("writes_only", &writes_only)
        .with("timezone", "Europe/Berlin")
        .with("range", "last_7_days");
    let options = SummariesOptions {
        project: Some("a b".to_string()),
        branches: Some("main".to_string()),
        timeout: Some(15),
        writes_only: Some(false),
        timezone: Some("Europe/Berlin".to_string()),
        range: Some("last_7_days".to_string()),
    };
    assert_eq!(options.into_query_string(), format!("{qs}"));
}
