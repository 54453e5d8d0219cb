//! Verified core of a monitoring-platform notification setup tool: the
//! allow-list used by the chat front end, the JSON-RPC response rules, and the
//! reconciliation of a notification channel, a recipient's contact addresses
//! and an alerting rule.

pub mod allow_list;
pub mod transport;
pub mod text;
pub mod channel;
pub mod recipient;
pub mod rule;
pub mod setup;
