# nautilus_slack

A Slack notification adapter for trading systems, verified with Verus.

- `src/common.rs`: the channel credential, API key masking and redacted debug output.
- `src/client.rs`: the Slack client: base URL, endpoint URLs, message bodies and the
  meaning of Slack's replies.
- `src/execution.rs`: the execution client: which trading commands are reported and how,
  and the connection state.
- `src/url_text.rs`, `src/text.rs`: the trusted calls into the `url` crate and std's
  `Debug` for strings.
- `app/`: HTTP with reqwest, JSON with serde, background tasks, the nautilus
  `ExecutionClient` impls and the Python bindings.
