use nautilus_slack::client::{SlackApiResponse, SlackClient};

#[test]
fn test_slack_client_new_valid() {
    let client = SlackClient::new("channel_id", "api_key");
    assert_eq!(client.base_url(), url::Url::parse("https://slack.com").unwrap().to_string());
    assert_eq!(client.channel_id(), "channel_id");
    assert_eq!(client.api_key(), "api_key");
}

#[test]
fn test_slack_client_new_valid_base_url() {
    let client =
        SlackClient::new_with_base_url("http://workspace.test", "channel_id", "api_key").unwrap();
    assert_eq!(client.base_url(), url::Url::parse("http://workspace.test").unwrap().to_string());
    assert_eq!(client.channel_id(), "channel_id");
    assert_eq!(client.api_key(), "api_key");
}

#[test]
fn test_slack_client_new_with_invalid_base_url() {
    let client = SlackClient::new_with_base_url("invalid_url", "channel_id", "api_key");
    assert!(client.is_err());
}

#[test]
fn test_slack_client_invalid_base_url_message() {
    let error = SlackClient::new_with_base_url("invalid_url", "channel_id", "api_key")
        .err()
        .unwrap();
    assert_eq!(error, "Invalid base URL 'invalid_url': relative URL without a base");
}

#[test]
fn test_slack_client_set_channel() {
    let mut client = SlackClient::new("channel_id", "api_key");
    client.set_channel_id("new_channel_id");
    assert_eq!(client.channel_id(), "new_channel_id");
    assert_eq!(client.api_key(), "api_key");
}

#[test]
fn test_slack_client_send_message() {
    let client =
        SlackClient::new_with_base_url("http://127.0.0.1:8080", "channel_id", "api_key").unwrap();
    assert_eq!(client.build_post_api_url(), "http://127.0.0.1:8080/api/chat.postMessage");
    let payload = client.message_payload("Hello, Slack!");
    assert_eq!(payload.token, "api_key");
    assert_eq!(payload.channel_id, "channel_id");
    assert_eq!(payload.text, "Hello, Slack!");
    let reply = SlackApiResponse { ok: true, error: None };
    let result = SlackClient::message_outcome(&reply);
    assert!(result.is_ok());
}

#[test]
fn test_slack_client_post_url_replaces_path() {
    let client =
        SlackClient::new_with_base_url("https://example.com/some/path?x=1", "c", "k").unwrap();
    assert_eq!(client.build_post_api_url(), "https://example.com/api/chat.postMessage?x=1");
    assert_eq!(client.build_test_api_url(), "https://example.com/api/api.test?x=1");
}

#[test]
fn test_slack_client_default_post_url() {
    let client = SlackClient::new("c", "k");
    assert_eq!(client.build_post_api_url(), "https://slack.com/api/chat.postMessage");
}

#[test]
fn test_slack_client_message_refused() {
    let reply = SlackApiResponse { ok: false, error: Some("channel_not_found".to_string()) };
    assert_eq!(
        SlackClient::message_outcome(&reply),
        Err("Failed to send message: channel_not_found".to_string())
    );
    let reply = SlackApiResponse { ok: false, error: None };
    assert_eq!(
        SlackClient::message_outcome(&reply),
        Err("Failed to send message: Unknown error".to_string())
    );
}

#[test]
fn test_slack_client_api_test_outcome() {
    let reply = SlackApiResponse { ok: false, error: Some("invalid_auth".to_string()) };
    assert_eq!(
        SlackClient::api_test_outcome(&reply),
        Err("Failed to test API: invalid_auth".to_string())
    );
    let reply = SlackApiResponse { ok: true, error: Some("ignored".to_string()) };
    assert_eq!(SlackClient::api_test_outcome(&reply), Ok(()));
}

#[test]
fn test_slack_client_identifiers() {
    let client = SlackClient::new("c", "k");
    assert_eq!(client.client_id(), "slack_client");
    assert_eq!(client.account_id(), "slack-account");
    assert_eq!(client.venue(), "slack");
}

#[test]
fn test_slack_client_debug_masks_key() {
    let client = SlackClient::new("channel_id", "abcdefghijklmnop");
    let text = client.debug_string();
    let url_debug = format!("{:?}", url::Url::parse("https://slack.com").unwrap());
    assert_eq!(
        text,
        format!(
            "SlackChannel {{ base_url: {url_debug}, channel_id: \"channel_id\", api_key: \"abcd...mnop\" }}"
        )
    );
    assert!(!text.contains("abcdefghijklmnop"));
}

#[test]
fn test_slack_client_py_new() {
    assert_eq!(
        SlackClient::py_new(None, Some("k".to_string())).err().unwrap(),
        "channel_id is required"
    );
    assert_eq!(
        SlackClient::py_new(Some("c".to_string()), None).err().unwrap(),
        "api_key is required"
    );
    let client = SlackClient::py_new(Some("c".to_string()), Some("k".to_string())).unwrap();
    assert_eq!(client.channel_id(), "c");
    assert_eq!(client.api_key(), "k");
    assert_eq!(client.base_url(), "https://slack.com/");
}

#[test]
fn test_slack_client_clone() {
    let client = SlackClient::new_with_base_url("http://workspace.test", "c", "k").unwrap();
    let copy = client.clone();
    assert_eq!(copy.base_url(), "http://workspace.test/");
    assert_eq!(copy.channel_id(), "c");
    assert_eq!(copy.api_key(), "k");
    assert_eq!(copy.build_post_api_url(), "http://workspace.test/api/chat.postMessage");
}

#[test]
fn test_slack_client_long_base_url_accepted() {
    let base = format!("http://workspace.test/{}", "a".repeat(100_000));
    let client = SlackClient::new_with_base_url(&base, "c", "k").unwrap();
    assert_eq!(client.build_post_api_url(), "http://workspace.test/api/chat.postMessage");
}

#[test]
fn test_slack_client_endpoint_fits() {
    let client = SlackClient::new("c", "k");
    assert!(client.endpoint_fits());
    let base = format!("http://workspace.test/{}", "a".repeat(100_000));
    let client = SlackClient::new_with_base_url(&base, "c", "k").unwrap();
    assert!(client.endpoint_fits());
}
