use nautilus_slack::client::{SlackApiResponse, SlackClient};
use nautilus_slack::execution::{
    command_notification, format_notification, notification_title, ExecutionCommand,
    SlackExecutionClient,
};

fn create_test_execution_client() -> SlackExecutionClient {
    let slack_client =
        SlackClient::new_with_base_url("http://127.0.0.1:8080", "channel_id", "api_key").unwrap();
    SlackExecutionClient::new_from_slack_client(slack_client)
}

#[test]
fn test_exec_client_create() {
    let exec_client = create_test_execution_client();
    assert_eq!(exec_client.client_id(), "slack_client");
    assert_eq!(exec_client.account_id(), "slack-account");
    assert_eq!(exec_client.venue(), "slack");
}

#[test]
fn test_exec_client_connect_disconnect() {
    let mut exec_client = create_test_execution_client();
    assert!(!exec_client.is_connected());
    exec_client.complete_connect(&SlackApiResponse { ok: true, error: None }).unwrap();
    assert!(exec_client.is_connected());
    exec_client.disconnect().unwrap();
    assert!(!exec_client.is_connected());
}

#[test]
fn test_exec_client_failed_connect() {
    let mut exec_client = create_test_execution_client();
    let outcome =
        exec_client.complete_connect(&SlackApiResponse { ok: false, error: None });
    assert_eq!(outcome, Err("Failed to test API: Unknown error".to_string()));
    assert!(!exec_client.is_connected());
}

#[test]
fn test_exec_client_new_default_url() {
    let exec_client = SlackExecutionClient::new("channel_id", "api_key");
    assert_eq!(exec_client.slack_client().base_url(), "https://slack.com/");
    assert_eq!(exec_client.slack_client().channel_id(), "channel_id");
    assert!(!exec_client.is_connected());
}

#[test]
fn test_notification_titles() {
    assert_eq!(notification_title(ExecutionCommand::SubmitOrder), None);
    assert_eq!(notification_title(ExecutionCommand::SubmitOrderList), Some("SubmitOrderList"));
    assert_eq!(notification_title(ExecutionCommand::ModifyOrder), Some("ModifyOrder"));
    assert_eq!(notification_title(ExecutionCommand::CancelOrder), Some("CancelOrder"));
    assert_eq!(notification_title(ExecutionCommand::CancelAllOrders), Some("CancelAllOrders"));
    assert_eq!(
        notification_title(ExecutionCommand::BatchCancelOrders),
        Some("BatchCancelOrders")
    );
    assert_eq!(notification_title(ExecutionCommand::QueryAccount), Some("QueryAccount"));
    assert_eq!(notification_title(ExecutionCommand::QueryOrder), Some("QueryOrder"));
}

#[test]
fn test_format_notification() {
    assert_eq!(
        format_notification("CancelOrder", Some("{\"a\":1}")),
        "*CancelOrder*:\n```json\n{\"a\":1}\n```"
    );
    assert_eq!(
        format_notification("QueryOrder", None),
        "*QueryOrder*:\n```json\nFailed to serialize message\n```"
    );
}

#[test]
fn test_command_notification() {
    assert_eq!(command_notification(ExecutionCommand::SubmitOrder, Some("{}")), None);
    assert_eq!(
        command_notification(ExecutionCommand::ModifyOrder, Some("{}")),
        Some("*ModifyOrder*:\n```json\n{}\n```".to_string())
    );
    assert_eq!(
        command_notification(ExecutionCommand::QueryAccount, None),
        Some("*QueryAccount*:\n```json\nFailed to serialize message\n```".to_string())
    );
}

#[test]
fn test_exec_client_new_posts_to_slack() {
    let exec_client = SlackExecutionClient::new("channel_id", "api_key");
    assert_eq!(
        exec_client.slack_client().build_post_api_url(),
        "https://slack.com/api/chat.postMessage"
    );
}
