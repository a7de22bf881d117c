//! Query strings: set fields appear exactly once with their canonical
//! rendering, unset fields contribute nothing, values are percent-encoded.

use waka::{AllTimesSinceTodayOptions, CommitOptions, SummariesOptions};

#[test]
fn empty_bundles_render_to_nothing() {
    assert_eq!(AllTimesSinceTodayOptions::default().into_query_string(), "");
    assert_eq!(CommitOptions::default().into_query_string(), "");
    assert_eq!(SummariesOptions::default().into_query_string(), "");
}

#[test]
fn single_project_filter() {
    let options = AllTimesSinceTodayOptions { project: Some("wakadump".to_string()) };
    assert_eq!(options.into_query_string(), "?project=wakadump");
}

#[test]
fn single_branch_filter() {
    let options = CommitOptions { branch: Some("main".to_string()) };
    assert_eq!(options.into_query_string(), "?branch=main");
}

#[test]
fn full_summaries_bundle_renders_each_field_once_in_order() {
    let options = SummariesOptions {
        project: Some("proj".to_string()),
        branches: Some("main,dev".to_string()),
        timeout: Some(30),
        writes_only: Some(true),
        timezone: Some("Europe/Berlin".to_string()),
        range: Some("last_7_days".to_string()),
    };
    assert_eq!(
        options.into_query_string(),
        "?project=proj&branches=main,dev&timeout=30&writes_only=true&timezone=Europe/Berlin&range=last_7_days"
    );
}

#[test]
fn partial_summaries_bundle_skips_unset_fields() {
    let options = SummariesOptions {
        project: None,
        branches: None,
        timeout: Some(0),
        writes_only: Some(false),
        timezone: None,
        range: None,
    };
    assert_eq!(options.into_query_string(), "?timeout=0&writes_only=false");
}

#[test]
fn values_are_percent_encoded() {
    let options = AllTimesSinceTodayOptions {
        project: Some("fruits and vegetables?".to_string()),
    };
    assert_eq!(options.into_query_string(), "?project=fruits%20and%20vegetables?");
}

#[test]
fn non_ascii_values_are_encoded_bytewise() {
    let options = AllTimesSinceTodayOptions {
        project: Some("Grünkohl & more".to_string()),
    };
    assert_eq!(options.into_query_string(), "?project=Gr%C3%BCnkohl%20%26%20more");
}

#[test]
fn reserved_characters_in_values_are_encoded() {
    let options = CommitOptions { branch: Some("a=b&c+d%e#f".to_string()) };
    assert_eq!(options.into_query_string(), "?branch=a%3Db%26c%2Bd%25e%23f");
}

#[test]
fn largest_timeout_renders_in_full() {
    let options = SummariesOptions {
        project: None,
        branches: None,
        timeout: Some(4294967295),
        writes_only: None,
        timezone: None,
        range: None,
    };
    assert_eq!(options.into_query_string(), "?timeout=4294967295");
}
