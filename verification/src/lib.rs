//! A Slack notification client for trading systems: credentials, message
//! payloads, the interpretation of Slack's replies, and the execution client
//! that turns trading commands into Slack notifications.

pub mod common;
pub mod text;
pub mod client;
pub mod url_text;
pub mod execution;
