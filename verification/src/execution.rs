//! The execution client: it reports trading commands to a Slack channel and
//! keeps track of whether it is connected.

use vstd::prelude::*;
use vstd::string::*;

use crate::client::{SlackApiResponse, SlackClient};

verus! {

/// The commands an execution client receives that carry a payload.
#[derive(Clone, Copy, PartialEq, Eq, Structural, Debug)]
pub enum ExecutionCommand {
    SubmitOrder,
    SubmitOrderList,
    ModifyOrder,
    CancelOrder,
    CancelAllOrders,
    BatchCancelOrders,
    QueryAccount,
    QueryOrder,
}

/// The text posted in place of a command that could not be serialized.
pub const SERIALIZATION_FAILURE: &'static str = "Failed to serialize message";

/// The title under which a command is reported to Slack; submitted orders are
/// not reported.
pub open spec fn command_title(command: ExecutionCommand) -> Option<Seq<char>> {
    match command {
        ExecutionCommand::SubmitOrder => None,
        ExecutionCommand::SubmitOrderList => Some("SubmitOrderList"@),
        ExecutionCommand::ModifyOrder => Some("ModifyOrder"@),
        ExecutionCommand::CancelOrder => Some("CancelOrder"@),
        ExecutionCommand::CancelAllOrders => Some("CancelAllOrders"@),
        ExecutionCommand::BatchCancelOrders => Some("BatchCancelOrders"@),
        ExecutionCommand::QueryAccount => Some("QueryAccount"@),
        ExecutionCommand::QueryOrder => Some("QueryOrder"@),
    }
}

/// The Slack message reporting a command: the title in bold, then the
/// command's JSON in a code block, or a note that it could not be serialized.
pub open spec fn notification_text(title: Seq<char>, json: Option<Seq<char>>) -> Seq<char> {
    "*"@ + title + "*:\n```json\n"@ + match json {
        Some(j) => j,
        None => SERIALIZATION_FAILURE@,
    } + "\n```"@
}

/// Every command but order submission is reported, and no two commands are
/// reported under the same title.
pub proof fn lemma_titles_distinct(a: ExecutionCommand, b: ExecutionCommand)
    ensures
        command_title(a) is None <==> a == ExecutionCommand::SubmitOrder,
        a != b && command_title(a) is Some ==> command_title(a) != command_title(b),
{
    reveal_strlit("SubmitOrderList");
    reveal_strlit("ModifyOrder");
    reveal_strlit("CancelOrder");
    reveal_strlit("CancelAllOrders");
    reveal_strlit("BatchCancelOrders");
    reveal_strlit("QueryAccount");
    reveal_strlit("QueryOrder");
    if a != b && command_title(a) is Some && command_title(b) is Some {
        let ta = command_title(a)->0;
        let tb = command_title(b)->0;
        if ta.len() == tb.len() {
            assert(ta[0] != tb[0] || ta[1] != tb[1] || ta[5] != tb[5]);
        }
    }
}

/// A reported command's JSON appears verbatim in its notification, whatever
/// its length: the message is `*`, the title, `*:`, a `json` code fence, the
/// JSON and the closing fence, and nothing else. Different JSON texts under
/// one title give different notifications.
pub proof fn lemma_notification_carries_json(title: Seq<char>, json: Seq<char>, other: Seq<char>)
    ensures
        notification_text(title, Some(json)).len() == title.len() as int + json.len() + 16,
        notification_text(title, Some(json)).subrange(1, title.len() as int + 1) == title,
        notification_text(title, Some(json)).subrange(
            title.len() as int + 12,
            title.len() as int + 12 + json.len(),
        ) == json,
        json != other ==> notification_text(title, Some(json)) != notification_text(
            title,
            Some(other),
        ),
{
    reveal_strlit("*");
    reveal_strlit("*:\n```json\n");
    reveal_strlit("\n```");
    let a = notification_text(title, Some(json));
    assert(a.subrange(1, title.len() as int + 1) =~= title);
    assert(a.subrange(title.len() as int + 12, title.len() as int + 12 + json.len()) =~= json);
    let b = notification_text(title, Some(other));
    if json != other && a == b {
        assert(b.subrange(title.len() as int + 12, title.len() as int + 12 + other.len()) =~= other);
    }
}

/// A command that could not be serialized is reported with the failure note
/// in place of its JSON.
pub proof fn lemma_failure_note_only_without_json(title: Seq<char>)
    ensures
        notification_text(title, None).subrange(title.len() as int + 12, title.len() as int + 12
            + SERIALIZATION_FAILURE@.len()) == SERIALIZATION_FAILURE@,
        notification_text(title, None) == notification_text(title, Some(SERIALIZATION_FAILURE@)),
{
    reveal_strlit("*");
    reveal_strlit("*:\n```json\n");
    reveal_strlit("\n```");
    let a = notification_text(title, None);
    assert(a.subrange(title.len() as int + 12, title.len() as int + 12 + SERIALIZATION_FAILURE@.len())
        =~= SERIALIZATION_FAILURE@);
}

/// The view of an optional string slice.
pub open spec fn opt_str_view(s: Option<&str>) -> Option<Seq<char>> {
    match s {
        Some(t) => Some(t@),
        None => None,
    }
}

/// Returns the title under which a command is reported, if it is reported.
pub fn notification_title(command: ExecutionCommand) -> (title: Option<&'static str>)
    ensures
        opt_str_view(title) == command_title(command),
{
    proof {
        reveal_strlit("SubmitOrderList");
        reveal_strlit("ModifyOrder");
        reveal_strlit("CancelOrder");
        reveal_strlit("CancelAllOrders");
        reveal_strlit("BatchCancelOrders");
        reveal_strlit("QueryAccount");
        reveal_strlit("QueryOrder");
    }
    match command {
        ExecutionCommand::SubmitOrder => None,
        ExecutionCommand::SubmitOrderList => Some("SubmitOrderList"),
        ExecutionCommand::ModifyOrder => Some("ModifyOrder"),
        ExecutionCommand::CancelOrder => Some("CancelOrder"),
        ExecutionCommand::CancelAllOrders => Some("CancelAllOrders"),
        ExecutionCommand::BatchCancelOrders => Some("BatchCancelOrders"),
        ExecutionCommand::QueryAccount => Some("QueryAccount"),
        ExecutionCommand::QueryOrder => Some("QueryOrder"),
    }
}

/// Formats the Slack message reporting a command under `title`, given the
/// command's JSON, or `None` when it could not be serialized.
pub fn format_notification(title: &str, message_json: Option<&str>) -> (text: String)
    ensures
        text@ == notification_text(title@, opt_str_view(message_json)),
{
    let mut text = String::from_str("*");
    text.append(title);
    text.append("*:\n```json\n");
    match message_json {
        Some(json) => text.append(json),
        None => text.append(SERIALIZATION_FAILURE),
    }
    text.append("\n```");
    text
}

/// Returns the Slack message reporting a command, or `None` for a command
/// that is not reported.
pub fn command_notification(command: ExecutionCommand, message_json: Option<&str>) -> (text:
    Option<String>)
    ensures
        match command_title(command) {
            Some(title) => text matches Some(t) && t@ == notification_text(
                title,
                opt_str_view(message_json),
            ),
            None => text is None,
        },
{
    match notification_title(command) {
        Some(title) => Some(format_notification(title, message_json)),
        None => None,
    }
}

/// An execution client that reports trading commands to a Slack channel.
pub struct SlackExecutionClient {
    slack_client: SlackClient,
    client_id: String,
    account_id: String,
    venue: String,
    connected: bool,
}

impl SlackExecutionClient {
    /// The client that posts the reports.
    pub closed spec fn slack_client_view(&self) -> SlackClient {
        self.slack_client
    }

    /// Whether the client is connected.
    pub closed spec fn connected_view(&self) -> bool {
        self.connected
    }

    /// The identifiers are fixed.
    #[verifier::type_invariant]
    spec fn well_formed(&self) -> bool {
        &&& self.client_id@ == crate::client::CLIENT_ID@
        &&& self.account_id@ == crate::client::ACCOUNT_ID@
        &&& self.venue@ == crate::client::VENUE@
    }

    /// Creates a disconnected execution client that reports through
    /// `slack_client`.
    pub fn new_from_slack_client(slack_client: SlackClient) -> (client: Self)
        ensures
            client.slack_client_view() == slack_client,
            !client.connected_view(),
    {
        SlackExecutionClient {
            slack_client,
            client_id: crate::client::CLIENT_ID.to_owned(),
            account_id: crate::client::ACCOUNT_ID.to_owned(),
            venue: crate::client::VENUE.to_owned(),
            connected: false,
        }
    }

    /// Creates a disconnected execution client that reports to `channel_id`
    /// on the Slack API at `https://slack.com`.
    pub fn new(channel_id: &str, api_key: &str) -> (client: Self)
        ensures
            client.slack_client_view().base_url_source_view() == crate::client::DEFAULT_BASE_URL@,
            client.slack_client_view().base_url_view()
                == crate::client::DEFAULT_BASE_URL_SERIALIZED@,
            client.slack_client_view().channel_view() == channel_id@,
            client.slack_client_view().key_view() == api_key@,
            !client.connected_view(),
    {
        Self::new_from_slack_client(SlackClient::new(channel_id, api_key))
    }

    /// The client that posts the reports.
    pub fn slack_client(&self) -> (client: &SlackClient)
        ensures
            *client == self.slack_client_view(),
    {
        &self.slack_client
    }

    /// Whether the client is connected.
    pub fn is_connected(&self) -> (connected: bool)
        ensures
            connected == self.connected_view(),
    {
        self.connected
    }

    /// Returns the client identifier.
    pub fn client_id(&self) -> (id: String)
        ensures
            id@ == crate::client::CLIENT_ID@,
    {
        proof {
            use_type_invariant(self);
        }
        self.client_id.clone()
    }

    /// Returns the account identifier.
    pub fn account_id(&self) -> (id: String)
        ensures
            id@ == crate::client::ACCOUNT_ID@,
    {
        proof {
            use_type_invariant(self);
        }
        self.account_id.clone()
    }

    /// Returns the venue.
    pub fn venue(&self) -> (venue: String)
        ensures
            venue@ == crate::client::VENUE@,
    {
        proof {
            use_type_invariant(self);
        }
        self.venue.clone()
    }

    /// Completes a connection attempt, given Slack's reply to the API test:
    /// the client is connected when the reply is `ok`, and otherwise stays as
    /// it was.
    ///
    /// # Errors
    ///
    /// Returns `Failed to test API: ` and Slack's error when the reply is not
    /// `ok`.
    pub fn complete_connect(&mut self, reply: &SlackApiResponse) -> (outcome: Result<(), String>)
        ensures
            outcome is Ok <==> reply.ok,
            final(self).connected_view() == (reply.ok || old(self).connected_view()),
            final(self).slack_client_view() == old(self).slack_client_view(),
            match crate::client::reply_outcome(
                "test API"@,
                reply.ok,
                crate::client::opt_view(reply.error),
            ) {
                Ok(_) => outcome is Ok,
                Err(message) => outcome matches Err(m) && m@ == message,
            },
    {
        proof {
            use_type_invariant(&*self);
        }
        let outcome = SlackClient::api_test_outcome(reply);
        if outcome.is_ok() {
            self.connected = true;
        }
        outcome
    }

    /// Disconnects the client.
    pub fn disconnect(&mut self) -> (outcome: Result<(), String>)
        ensures
            outcome is Ok,
            !final(self).connected_view(),
            final(self).slack_client_view() == old(self).slack_client_view(),
    {
        proof {
            use_type_invariant(&*self);
        }
        self.connected = false;
        Ok(())
    }
}

} // verus!
