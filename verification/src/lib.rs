//! Command handling and webhook ingress for a chat bot that links chats to
//! externally issued identifiers.
//!
//! The crate holds the decisions of the bot: how a message is read as a
//! command, what each command asks of the table of links, which reply each
//! outcome earns, how the webhook answers a request, and how queued updates
//! are handed on while the listener shuts down.

pub mod command;
pub mod dispatch;
pub mod ident;
pub mod laws;
pub mod listener;
pub mod store;
pub mod text;
