use nautilus_slack::common::{mask_api_key, SlackChannel, REDACTED};

#[test]
fn test_slack_channel_api_key_masked_short() {
    let credential = SlackChannel::new("test_channel", "short");
    assert_eq!(credential.api_key_masked(), "*****");
}

#[test]
fn test_slack_channel_api_key_masked_long() {
    let credential = SlackChannel::new("test_channel", "abcdefghijklmnop");
    assert_eq!(credential.api_key_masked(), "abcd...mnop");
}

#[test]
fn test_slack_channel_debug_redaction() {
    let credential = SlackChannel::new("test_channel", "test_api_key");
    let debug_str = credential.debug_string();
    assert!(debug_str.contains(REDACTED));
    assert!(!debug_str.contains("test_api_key"));
}

#[test]
fn test_slack_channel_channel_id() {
    let credential = SlackChannel::new("test_channel", "test_api_key");
    let debug_str = credential.debug_string();
    assert!(debug_str.contains("test_channel"));
    assert!(debug_str.contains("channel_id"));
}

#[test]
fn test_slack_channel_debug_exact() {
    let credential = SlackChannel::new("test_channel", "test_api_key");
    assert_eq!(
        credential.debug_string(),
        "SlackChannel { channel_id: \"test_channel\", api_key: \"<redacted>\" }"
    );
}

#[test]
fn test_slack_channel_debug_quotes_channel() {
    let credential = SlackChannel::new("a\"b", "k");
    assert_eq!(
        credential.debug_string(),
        "SlackChannel { channel_id: \"a\\\"b\", api_key: \"<redacted>\" }"
    );
}

#[test]
fn test_slack_channel_debug_ignores_key() {
    let a = SlackChannel::new("chan", "first-secret-key");
    let b = SlackChannel::new("chan", "another-key");
    assert_eq!(a.debug_string(), b.debug_string());
}

#[test]
fn test_slack_channel_accessors() {
    let credential = SlackChannel::new("test_channel", "test_api_key");
    assert_eq!(credential.api_key(), "test_api_key");
    assert_eq!(credential.channel_id(), "test_channel");
}

#[test]
fn test_mask_api_key_cases() {
    assert_eq!(mask_api_key(""), "");
    assert_eq!(mask_api_key("a"), "*");
    assert_eq!(mask_api_key("abc"), "***");
    assert_eq!(mask_api_key("abcdefg"), "*******");
    assert_eq!(mask_api_key("abcdefgh"), "abcd...efgh");
    assert_eq!(mask_api_key("abcdefghi"), "abcd...fghi");
    assert_eq!(mask_api_key("VeryLongAPIKey123456789"), "Very...6789");
}

#[test]
fn test_mask_api_key_unicode() {
    assert_eq!(mask_api_key("ééééxxxxyyyy"), "éééé...yyyy");
    assert_eq!(mask_api_key("日本語"), "***");
}

#[test]
fn test_mask_depends_only_on_ends() {
    assert_eq!(mask_api_key("abcdXXXXXXwxyz"), mask_api_key("abcdYYYYYYwxyz"));
    assert_eq!(mask_api_key("secret1"), mask_api_key("other12"));
}

#[test]
fn test_slack_channel_clone_keeps_key_and_channel() {
    let credential = SlackChannel::new("test_channel", "test_api_key");
    let copy = credential.clone();
    assert_eq!(copy.api_key(), "test_api_key");
    assert_eq!(copy.channel_id(), "test_channel");
    assert_eq!(copy.channel_id(), copy.channel_id());
}
