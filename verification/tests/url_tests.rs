//! Endpoint URLs: fixed base, target user (defaulting to `current`),
//! endpoint path, and the rendered query string.

use waka::{AllTimesSinceTodayOptions, CommitOptions, SummariesOptions, WakaTimeClientBuilder};

#[test]
fn default_target_user_is_current() {
    let client = WakaTimeClientBuilder::new_with_api_key("test").build().unwrap();
    assert_eq!(client.user(), "current");
    let url = client.all_time_since_today_url(AllTimesSinceTodayOptions::default());
    assert_eq!(url, "https://wakatime.com/api/v1/users/current/all_time_since_today");
}

#[test]
fn explicit_target_user_appears_in_url() {
    let client = WakaTimeClientBuilder::new_with_api_key("test")
        .with_user("alice")
        .build()
        .unwrap();
    assert_eq!(client.user(), "alice");
    let url = client.all_time_since_today_url(AllTimesSinceTodayOptions::default());
    assert_eq!(url, "https://wakatime.com/api/v1/users/alice/all_time_since_today");
}

#[test]
fn all_time_url_carries_the_project_filter() {
    let client = WakaTimeClientBuilder::new_with_api_key("test").build().unwrap();
    let options = AllTimesSinceTodayOptions { project: Some("wakadump".to_string()) };
    let url = client.all_time_since_today_url(options);
    assert_eq!(
        url,
        "https://wakatime.com/api/v1/users/current/all_time_since_today?project=wakadump"
    );
}

#[test]
fn commit_url_embeds_project_and_hash_verbatim() {
    let client = WakaTimeClientBuilder::new_with_api_key("test").build().unwrap();
    let url = client.commit_url("wakadump", "abc123", CommitOptions::default());
    assert_eq!(
        url,
        "https://wakatime.com/api/v1/users/current/projects/wakadump/commits/abc123"
    );
}

#[test]
fn commit_url_carries_the_branch_filter() {
    let client = WakaTimeClientBuilder::new_with_api_key("test")
        .with_user("bob")
        .build()
        .unwrap();
    let options = CommitOptions { branch: Some("main".to_string()) };
    let url = client.commit_url("proj", "deadbeef", options);
    assert_eq!(
        url,
        "https://wakatime.com/api/v1/users/bob/projects/proj/commits/deadbeef?branch=main"
    );
}

#[test]
fn summaries_url_always_includes_start_and_end_last() {
    let client = WakaTimeClientBuilder::new_with_api_key("test").build().unwrap();
    let url = client.summaries_url("2023-01-01", "2023-01-08", SummariesOptions::default());
    assert_eq!(
        url,
        "https://wakatime.com/api/v1/users/current/summaries?start=2023-01-01&end=2023-01-08"
    );
}

#[test]
fn summaries_url_puts_options_before_the_range() {
    let client = WakaTimeClientBuilder::new_with_api_key("test").build().unwrap();
    let options = SummariesOptions {
        project: Some("proj".to_string()),
        branches: None,
        timeout: None,
        writes_only: Some(true),
        timezone: None,
        range: None,
    };
    let url = client.summaries_url("2023-01-01", "2023-01-08", options);
    assert_eq!(
        url,
        "https://wakatime.com/api/v1/users/current/summaries?project=proj&writes_only=true&start=2023-01-01&end=2023-01-08"
    );
}
