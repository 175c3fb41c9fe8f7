//! The Slack client: where messages go, what is posted, and what Slack's reply
//! means.

use vstd::prelude::*;
use vstd::string::*;

use crate::common::SlackChannel;
use crate::text::debug_quote;
use crate::url_text::{parse_url, set_url_path, url_debug};

verus! {

/// The base URL of the Slack API.
pub const DEFAULT_BASE_URL: &'static str = "https://slack.com";

/// The serialization of the parsed [`DEFAULT_BASE_URL`].
pub const DEFAULT_BASE_URL_SERIALIZED: &'static str = "https://slack.com/";

/// The path of Slack's message posting endpoint.
pub const POST_MESSAGE_PATH: &'static str = "/api/chat.postMessage";

/// The path of Slack's API test endpoint.
pub const API_TEST_PATH: &'static str = "/api/api.test";

/// Whether an endpoint path (of at most 64 characters, each taking at most 12
/// bytes once percent-encoded, plus a leading `/`) can be set on a base URL
/// serialized as `base_url` without pushing it past `u32::MAX` bytes, where
/// the `url` crate's offsets overflow and it panics.
pub open spec fn endpoint_fits_text(base_url: Seq<char>) -> bool {
    crate::url_text::utf8_len(base_url) + 12 * 64 + 1 <= u32::MAX
}

/// The identifier under which the client is registered.
pub const CLIENT_ID: &'static str = "slack_client";

/// The account the client reports.
pub const ACCOUNT_ID: &'static str = "slack-account";

/// The venue the client reports.
pub const VENUE: &'static str = "slack";

/// The message reported when Slack refuses a request without saying why.
pub const UNKNOWN_ERROR: &'static str = "Unknown error";

/// The error text of a base URL that does not parse.
pub open spec fn invalid_base_url_text(base_url: Seq<char>, reason: Seq<char>) -> Seq<char> {
    "Invalid base URL '"@ + base_url + "': "@ + reason
}

/// What `new_with_base_url` returns for a base URL: the serialization of the
/// parsed URL, or the error text.
pub open spec fn base_url_outcome(base_url: Seq<char>) -> Result<Seq<char>, Seq<char>> {
    match crate::url_text::parsed_url(base_url) {
        Ok(text) => Ok(text),
        Err(reason) => Err(invalid_base_url_text(base_url, reason)),
    }
}

/// The error text of a request that Slack answered with `ok: false`.
pub open spec fn refusal_text(action: Seq<char>, error: Option<Seq<char>>) -> Seq<char> {
    "Failed to "@ + action + ": "@ + match error {
        Some(e) => e,
        None => UNKNOWN_ERROR@,
    }
}

/// The outcome of a request given Slack's reply.
pub open spec fn reply_outcome(action: Seq<char>, ok: bool, error: Option<Seq<char>>) -> Result<
    (),
    Seq<char>,
> {
    if ok {
        Ok(())
    } else {
        Err(refusal_text(action, error))
    }
}

/// The debug rendering of a client.
pub open spec fn client_debug_text(
    base_url_source: Seq<char>,
    channel_id: Seq<char>,
    api_key: Seq<char>,
) -> Seq<char> {
    "SlackChannel { base_url: "@ + crate::url_text::url_debug_text(base_url_source)
        + ", channel_id: "@ + crate::text::debug_quoted(channel_id) + ", api_key: "@
        + crate::text::debug_quoted(crate::common::masked_key(api_key)) + " }"@
}

/// The view of an optional string.
pub open spec fn opt_view(s: Option<String>) -> Option<Seq<char>> {
    match s {
        Some(t) => Some(t@),
        None => None,
    }
}

/// The body posted to Slack's message endpoint.
pub struct SlackMessagePayload {
    pub token: String,
    pub channel_id: String,
    pub text: String,
}

/// Slack's reply to a request: whether it succeeded, and if not, why.
pub struct SlackApiResponse {
    pub ok: bool,
    pub error: Option<String>,
}

/// A client that posts messages to one Slack channel.
pub struct SlackClient {
    /// The text the base URL was given as.
    base_url_source: String,
    /// The serialization of the parsed base URL.
    base_url: String,
    channel_id: String,
    api_key: SlackChannel,
    client_id: String,
    account_id: String,
    venue: String,
}

impl SlackClient {
    /// The text the base URL was given as.
    pub closed spec fn base_url_source_view(&self) -> Seq<char> {
        self.base_url_source@
    }

    /// The serialization of the parsed base URL.
    pub closed spec fn base_url_view(&self) -> Seq<char> {
        self.base_url@
    }

    /// The channel messages are posted to.
    pub closed spec fn channel_view(&self) -> Seq<char> {
        self.channel_id@
    }

    /// The API key messages are posted with.
    pub closed spec fn key_view(&self) -> Seq<char> {
        self.api_key.key_view()
    }

    /// The client identifier.
    pub closed spec fn client_id_view(&self) -> Seq<char> {
        self.client_id@
    }

    /// The account identifier.
    pub closed spec fn account_id_view(&self) -> Seq<char> {
        self.account_id@
    }

    /// The venue.
    pub closed spec fn venue_view(&self) -> Seq<char> {
        self.venue@
    }

    /// The base URL parses to its stored serialization, which is short enough
    /// for an endpoint path to be set on it; the identifiers are fixed.
    #[verifier::type_invariant]
    spec fn well_formed(&self) -> bool {
        &&& crate::url_text::parsed_url(self.base_url_source@) == Ok::<Seq<char>, Seq<char>>(
            self.base_url@,
        )
        &&& self.client_id@ == CLIENT_ID@
        &&& self.account_id@ == ACCOUNT_ID@
        &&& self.venue@ == VENUE@
    }

    /// Creates a client for the Slack API at `https://slack.com`.
    pub fn new(channel_id: &str, api_key: &str) -> (client: Self)
        ensures
            client.base_url_source_view() == DEFAULT_BASE_URL@,
            client.base_url_view() == DEFAULT_BASE_URL_SERIALIZED@,
            client.channel_view() == channel_id@,
            client.key_view() == api_key@,
            client.client_id_view() == CLIENT_ID@,
            client.account_id_view() == ACCOUNT_ID@,
            client.venue_view() == VENUE@,
    {
        let parsed = parse_url(DEFAULT_BASE_URL);
        match Self::from_parsed(DEFAULT_BASE_URL, parsed, channel_id, api_key) {
            Ok(client) => client,
            Err(_) => vstd::pervasive::unreached(),
        }
    }

    /// Creates a client for the Slack API at `base_url`.
    ///
    /// # Errors
    ///
    /// Returns an error if `base_url` is not a valid URL.
    pub fn new_with_base_url(base_url: &str, channel_id: &str, api_key: &str) -> (client: Result<
        Self,
        String,
    >)
        ensures
            client is Ok <==> crate::url_text::parsed_url(base_url@) is Ok,
            client matches Ok(c) ==> crate::url_text::parsed_url(base_url@) == Ok::<
                Seq<char>,
                Seq<char>,
            >(c.base_url_view()),
            match base_url_outcome(base_url@) {
                Ok(text) => client matches Ok(c) && c.base_url_source_view() == base_url@
                    && c.base_url_view() == text && c.channel_view() == channel_id@
                    && c.key_view() == api_key@ && c.client_id_view() == CLIENT_ID@
                    && c.account_id_view() == ACCOUNT_ID@ && c.venue_view() == VENUE@,
                Err(message) => client matches Err(m) && m@ == message,
            },
    {
        let parsed = parse_url(base_url);
        Self::from_parsed(base_url, parsed, channel_id, api_key)
    }

    /// Builds a client from `base_url` and what parsing it gave.
    fn from_parsed(
        base_url: &str,
        parsed: Result<String, String>,
        channel_id: &str,
        api_key: &str,
    ) -> (client: Result<Self, String>)
        requires
            crate::url_text::text_result(parsed) == crate::url_text::parsed_url(base_url@),
        ensures
            match base_url_outcome(base_url@) {
                Ok(text) => client matches Ok(c) && c.base_url_source_view() == base_url@
                    && c.base_url_view() == text && c.channel_view() == channel_id@
                    && c.key_view() == api_key@ && c.client_id_view() == CLIENT_ID@
                    && c.account_id_view() == ACCOUNT_ID@ && c.venue_view() == VENUE@,
                Err(message) => client matches Err(m) && m@ == message,
            },
    {
        match parsed {
            Ok(text) => {
                let client = SlackClient {
                    base_url_source: base_url.to_owned(),
                    base_url: text,
                    channel_id: channel_id.to_owned(),
                    api_key: SlackChannel::new(channel_id, api_key),
                    client_id: CLIENT_ID.to_owned(),
                    account_id: ACCOUNT_ID.to_owned(),
                    venue: VENUE.to_owned(),
                };
                Ok(client)
            },
            Err(reason) => Err(invalid_base_url(base_url, reason.as_str())),
        }
    }

    /// Sets the channel messages are posted to.
    pub fn set_channel_id(&mut self, channel_id: &str)
        ensures
            final(self).channel_view() == channel_id@,
            final(self).base_url_source_view() == old(self).base_url_source_view(),
            final(self).base_url_view() == old(self).base_url_view(),
            final(self).key_view() == old(self).key_view(),
            final(self).client_id_view() == old(self).client_id_view(),
            final(self).account_id_view() == old(self).account_id_view(),
            final(self).venue_view() == old(self).venue_view(),
    {
        proof {
            use_type_invariant(&*self);
        }
        self.channel_id = channel_id.to_owned();
    }

    /// Returns the serialization of the base URL.
    pub fn base_url(&self) -> (url: String)
        ensures
            url@ == self.base_url_view(),
    {
        self.base_url.clone()
    }

    /// Returns the channel messages are posted to.
    pub fn channel_id(&self) -> (id: String)
        ensures
            id@ == self.channel_view(),
    {
        self.channel_id.clone()
    }

    /// Returns the API key messages are posted with.
    pub fn api_key(&self) -> (key: &str)
        ensures
            key@ == self.key_view(),
    {
        self.api_key.api_key()
    }

    /// Returns the client identifier.
    pub fn client_id(&self) -> (id: String)
        ensures
            id@ == CLIENT_ID@,
    {
        proof {
            use_type_invariant(self);
        }
        self.client_id.clone()
    }

    /// Returns the account identifier.
    pub fn account_id(&self) -> (id: String)
        ensures
            id@ == ACCOUNT_ID@,
    {
        proof {
            use_type_invariant(self);
        }
        self.account_id.clone()
    }

    /// Returns the venue.
    pub fn venue(&self) -> (venue: String)
        ensures
            venue@ == VENUE@,
    {
        proof {
            use_type_invariant(self);
        }
        self.venue.clone()
    }

    /// Whether an endpoint URL can be built from the base URL: false only for
    /// a base URL within a few hundred bytes of 4 GiB, on which the `url`
    /// crate would panic.
    pub fn endpoint_fits(&self) -> (fits: bool)
        ensures
            fits == endpoint_fits_text(self.base_url_view()),
    {
        let len = self.base_url.as_str().as_bytes().len();
        (len as u64) <= 4294966526u64
    }

    /// The URL of an endpoint of the Slack API: the base URL with its path
    /// replaced by `path`.
    fn endpoint_url(&self, path: &str) -> (url: String)
        requires
            path@.len() <= 64,
            endpoint_fits_text(self.base_url_view()),
        ensures
            url@ == crate::url_text::url_with_path(self.base_url_source_view(), path@),
    {
        proof {
            use_type_invariant(self);
        }
        set_url_path(self.base_url_source.as_str(), path)
    }

    /// Returns the URL messages are posted to.
    pub fn build_post_api_url(&self) -> (url: String)
        requires
            endpoint_fits_text(self.base_url_view()),
        ensures
            url@ == crate::url_text::url_with_path(
                self.base_url_source_view(),
                POST_MESSAGE_PATH@,
            ),
    {
        proof {
            reveal_strlit("/api/chat.postMessage");
        }
        self.endpoint_url(POST_MESSAGE_PATH)
    }

    /// Returns the URL of Slack's API test endpoint.
    pub fn build_test_api_url(&self) -> (url: String)
        requires
            endpoint_fits_text(self.base_url_view()),
        ensures
            url@ == crate::url_text::url_with_path(self.base_url_source_view(), API_TEST_PATH@),
    {
        proof {
            reveal_strlit("/api/api.test");
        }
        self.endpoint_url(API_TEST_PATH)
    }

    /// Returns the body that posts `text` to the client's channel.
    pub fn message_payload(&self, text: &str) -> (payload: SlackMessagePayload)
        ensures
            payload.token@ == self.key_view(),
            payload.channel_id@ == self.channel_view(),
            payload.text@ == text@,
    {
        SlackMessagePayload {
            token: self.api_key.api_key().to_owned(),
            channel_id: self.channel_id.clone(),
            text: text.to_owned(),
        }
    }

    /// Returns the body of a request to Slack's API test endpoint.
    pub fn api_test_payload(&self) -> (payload: SlackMessagePayload)
        ensures
            payload.token@ == self.key_view(),
            payload.channel_id@ == self.channel_view(),
            payload.text@ == Seq::<char>::empty(),
    {
        SlackMessagePayload {
            token: self.api_key.api_key().to_owned(),
            channel_id: self.channel_id.clone(),
            text: String::new(),
        }
    }

    /// The outcome of posting a message, given Slack's reply.
    ///
    /// # Errors
    ///
    /// Returns `Failed to send message: ` and Slack's error (or
    /// `Unknown error`) when the reply is not `ok`.
    pub fn message_outcome(response: &SlackApiResponse) -> (outcome: Result<(), String>)
        ensures
            outcome is Ok <==> response.ok,
            match reply_outcome("send message"@, response.ok, opt_view(response.error)) {
                Ok(_) => outcome is Ok,
                Err(message) => outcome matches Err(m) && m@ == message,
            },
    {
        proof {
            reveal_strlit("send message");
        }
        reply_outcome_exec("send message", response)
    }

    /// The outcome of a call to Slack's API test endpoint, given Slack's reply.
    ///
    /// # Errors
    ///
    /// Returns `Failed to test API: ` and Slack's error (or `Unknown error`)
    /// when the reply is not `ok`.
    pub fn api_test_outcome(response: &SlackApiResponse) -> (outcome: Result<(), String>)
        ensures
            outcome is Ok <==> response.ok,
            match reply_outcome("test API"@, response.ok, opt_view(response.error)) {
                Ok(_) => outcome is Ok,
                Err(message) => outcome matches Err(m) && m@ == message,
            },
    {
        proof {
            reveal_strlit("test API");
        }
        reply_outcome_exec("test API", response)
    }

    /// Returns the debug rendering of this client, in which the API key is
    /// masked.
    pub fn debug_string(&self) -> (text: String)
        ensures
            text@ == client_debug_text(
                self.base_url_source_view(),
                self.channel_view(),
                self.key_view(),
            ),
    {
        proof {
            use_type_invariant(self);
        }
        let mut text = String::from_str("SlackChannel { base_url: ");
        let url = url_debug(self.base_url_source.as_str());
        text.append(url.as_str());
        text.append(", channel_id: ");
        let channel = debug_quote(self.channel_id.as_str());
        text.append(channel.as_str());
        text.append(", api_key: ");
        let masked = self.api_key.api_key_masked();
        let key = debug_quote(masked.as_str());
        text.append(key.as_str());
        text.append(" }");
        text
    }

    /// Creates a client from optional arguments, as the Python constructor
    /// takes them.
    ///
    /// # Errors
    ///
    /// Returns `channel_id is required` when no channel is given, else
    /// `api_key is required` when no API key is given.
    pub fn py_new(channel_id: Option<String>, api_key: Option<String>) -> (client: Result<
        Self,
        String,
    >)
        ensures
            match (channel_id, api_key) {
                (Some(c), Some(k)) => client matches Ok(cl) && cl.base_url_source_view()
                    == DEFAULT_BASE_URL@ && cl.base_url_view()
                    == DEFAULT_BASE_URL_SERIALIZED@ && cl.channel_view() == c@ && cl.key_view() == k@,
                (None, _) => client matches Err(m) && m@ == "channel_id is required"@,
                (Some(_), None) => client matches Err(m) && m@ == "api_key is required"@,
            },
    {
        match channel_id {
            None => Err(String::from_str("channel_id is required")),
            Some(c) => match api_key {
                None => Err(String::from_str("api_key is required")),
                Some(k) => Ok(Self::new(c.as_str(), k.as_str())),
            },
        }
    }
}

impl Clone for SlackClient {
    /// A copy of the client: same base URL, channel, key and identifiers.
    fn clone(&self) -> (copy: Self)
        ensures
            copy.base_url_source_view() == self.base_url_source_view(),
            copy.base_url_view() == self.base_url_view(),
            copy.channel_view() == self.channel_view(),
            copy.key_view() == self.key_view(),
            copy.client_id_view() == self.client_id_view(),
            copy.account_id_view() == self.account_id_view(),
            copy.venue_view() == self.venue_view(),
    {
        proof {
            use_type_invariant(self);
        }
        SlackClient {
            base_url_source: self.base_url_source.clone(),
            base_url: self.base_url.clone(),
            channel_id: self.channel_id.clone(),
            api_key: self.api_key.clone(),
            client_id: self.client_id.clone(),
            account_id: self.account_id.clone(),
            venue: self.venue.clone(),
        }
    }
}

/// A request succeeds exactly when Slack's reply says `ok`, whatever the
/// reply's error field holds; a refusal's message names the action and
/// carries Slack's error verbatim.
pub proof fn lemma_reply_ok_iff_ok(action: Seq<char>, ok: bool, error: Option<Seq<char>>)
    ensures
        reply_outcome(action, ok, error) is Ok <==> ok,
        !ok ==> (reply_outcome(action, ok, error) matches Err(m) && m.subrange(
            10,
            10 + action.len() as int,
        ) == action && (error matches Some(e) ==> m.subrange(
            12 + action.len() as int,
            m.len() as int,
        ) == e)),
{
    reveal_strlit("Failed to ");
    reveal_strlit(": ");
    if !ok {
        let m = refusal_text(action, error);
        assert(m.subrange(10, 10 + action.len() as int) =~= action);
        if let Some(e) = error {
            assert(m.subrange(12 + action.len() as int, m.len() as int) =~= e);
        }
    }
}

/// A base URL is accepted exactly when it parses, and an accepted base URL is
/// held as what it parses to; a refused one is reported with the parser's
/// reason.
pub proof fn lemma_base_url_accepted_iff_parses(base_url: Seq<char>)
    ensures
        base_url_outcome(base_url) is Ok <==> crate::url_text::parsed_url(base_url) is Ok,
        crate::url_text::parsed_url(base_url) matches Ok(text) ==> base_url_outcome(base_url)
            == Ok::<Seq<char>, Seq<char>>(text),
        crate::url_text::parsed_url(base_url) matches Err(reason) ==> base_url_outcome(base_url)
            matches Err(m) && m.subrange(m.len() - reason.len(), m.len() as int) == reason,
{
    if let Err(reason) = crate::url_text::parsed_url(base_url) {
        let m = invalid_base_url_text(base_url, reason);
        assert(m.subrange(m.len() - reason.len(), m.len() as int) =~= reason);
    }
}

/// The debug rendering of a client shows its own base URL: the URL's debug
/// text follows the opening `SlackChannel { base_url: `, so two clients with
/// the same channel and key whose base URLs render differently render
/// differently.
pub proof fn lemma_client_debug_shows_base_url(
    source: Seq<char>,
    other_source: Seq<char>,
    channel_id: Seq<char>,
    api_key: Seq<char>,
)
    ensures
        client_debug_text(source, channel_id, api_key).subrange(
            25,
            25 + crate::url_text::url_debug_text(source).len() as int,
        ) == crate::url_text::url_debug_text(source),
        crate::url_text::url_debug_text(source) != crate::url_text::url_debug_text(other_source)
            ==> client_debug_text(source, channel_id, api_key) != client_debug_text(
            other_source,
            channel_id,
            api_key,
        ),
{
    reveal_strlit("SlackChannel { base_url: ");
    let u = crate::url_text::url_debug_text(source);
    let v = crate::url_text::url_debug_text(other_source);
    let a = client_debug_text(source, channel_id, api_key);
    let b = client_debug_text(other_source, channel_id, api_key);
    assert(a.subrange(25, 25 + u.len() as int) =~= u);
    let tail_len = ", channel_id: "@.len() + crate::text::debug_quoted(channel_id).len()
        + ", api_key: "@.len() + crate::text::debug_quoted(crate::common::masked_key(api_key)).len()
        + " }"@.len();
    assert(a.len() == 25 + u.len() + tail_len);
    assert(b.len() == 25 + v.len() + tail_len);
    if u != v && a == b {
        assert(b.subrange(25, 25 + v.len() as int) =~= v);
        assert(false);
    }
}

/// The debug rendering of a client shows its API key only through the masked
/// form: two clients for the same base URL and channel whose keys mask alike
/// render alike.
pub proof fn lemma_client_debug_masks_key(a: SlackClient, b: SlackClient)
    requires
        a.base_url_source_view() == b.base_url_source_view(),
        a.channel_view() == b.channel_view(),
        crate::common::masked_key(a.key_view()) == crate::common::masked_key(b.key_view()),
    ensures
        client_debug_text(a.base_url_source_view(), a.channel_view(), a.key_view())
            == client_debug_text(b.base_url_source_view(), b.channel_view(), b.key_view()),
{
}

/// The error text of an invalid base URL.
fn invalid_base_url(base_url: &str, reason: &str) -> (message: String)
    ensures
        message@ == invalid_base_url_text(base_url@, reason@),
{
    let mut message = String::from_str("Invalid base URL '");
    message.append(base_url);
    message.append("': ");
    message.append(reason);
    message
}

/// The outcome of a request described by `action`, given Slack's reply.
fn reply_outcome_exec(action: &str, response: &SlackApiResponse) -> (outcome: Result<(), String>)
    ensures
        match reply_outcome(action@, response.ok, opt_view(response.error)) {
            Ok(_) => outcome is Ok,
            Err(message) => outcome matches Err(m) && m@ == message,
        },
{
    if response.ok {
        Ok(())
    } else {
        let mut message = String::from_str("Failed to ");
        message.append(action);
        message.append(": ");
        match &response.error {
            Some(e) => message.append(e.as_str()),
            None => message.append(UNKNOWN_ERROR),
        }
        Err(message)
    }
}

} // verus!
